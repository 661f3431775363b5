use gateway::ask_user_question::AskUserQuestionTool;
use gateway::corpus_read::CorpusReadTool;
use gateway::json::Json;
use gateway::record_investment_action::RecordInvestmentActionTool;
use gateway::record_research_note::RecordResearchNoteTool;
use gateway::tools::ToolSpec;

fn parts(s: ToolSpec) -> (String, String, Json) {
    match s {
        ToolSpec::Function { name, description, parameters } => (name, description, parameters),
    }
}

fn required(p: &Json) -> Vec<String> {
    match p.get("required") {
        Some(Json::Array(a)) => a.iter().filter_map(|x| x.as_str().map(str::to_string)).collect(),
        _ => panic!("no required list"),
    }
}

#[test]
fn function_specs_name_their_tools() {
    let (name, _, p) = parts(CorpusReadTool::new().spec());
    assert_eq!(name, "corpus_read");
    assert_eq!(required(&p), vec!["id"]);
    assert_eq!(p.get("type").and_then(|t| t.as_str()), Some("object"));
    let (name, _, p) = parts(AskUserQuestionTool::new().spec());
    assert_eq!(name, "ask_user_question");
    assert_eq!(required(&p), vec!["questions"]);
    let q = p.get("properties").and_then(|m| m.get("questions")).unwrap();
    assert_eq!(q.get("maxItems").and_then(|n| n.as_u64()), Some(3));
    let (name, d, p) = parts(RecordResearchNoteTool::new().spec());
    assert_eq!(name, "record_research_note");
    assert!(d.contains("Do NOT use record_investment_action"));
    assert_eq!(required(&p), vec!["note_type", "title", "body"]);
    let (name, d, p) = parts(RecordInvestmentActionTool::new().spec());
    assert_eq!(name, "record_investment_action");
    assert!(d.contains("use record_research_note instead.\n\nThe structural fields"));
    assert_eq!(required(&p).len(), 8);
    let mandate = p.get("properties").and_then(|m| m.get("mandate_check")).unwrap();
    assert_eq!(required(mandate), vec!["fits_mandate", "notes"]);
}
