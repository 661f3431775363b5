use gateway::ask_user_question::AskUserQuestionTool;
use gateway::corpus_read::{parse_request, CorpusDoc, CorpusReadTool};
use gateway::corpus_search::{hits_reply, search_request, CorpusHit};
use gateway::json::{json_u64, Json};

fn obj(members: Vec<(&str, Json)>) -> Json {
    Json::Object(members.into_iter().map(|(k, v)| (k.to_string(), v)).collect())
}

fn s(x: &str) -> Json {
    Json::String(x.to_string())
}

#[test]
fn returns_awaiting_user_payload() {
    let tool = AskUserQuestionTool::new();
    let args = obj(vec![(
        "questions",
        Json::Array(vec![obj(vec![
            ("id", s("time_horizon")),
            ("header", s("周期")),
            ("question", s("这次研究按短线还是中长期来做？")),
            (
                "options",
                Json::Array(vec![
                    obj(vec![("label", s("中长期 (Recommended)")), ("description", s("更适合完整基本面研究。"))]),
                    obj(vec![("label", s("短线")), ("description", s("更强调催化、资金面和退出。"))]),
                ]),
            ),
        ])]),
    )]);
    let out = tool.call(&args).unwrap();
    let value: serde_json::Value = serde_json::from_str(&out).unwrap();
    assert_eq!(value["status"], "awaiting_user");
    assert!(value["question_text"].as_str().unwrap().contains("短线"));
}

#[test]
fn rejects_missing_options() {
    let tool = AskUserQuestionTool::new();
    let args = obj(vec![(
        "questions",
        Json::Array(vec![obj(vec![("id", s("scope")), ("header", s("范围")), ("question", s("要做到什么程度？"))])]),
    )]);
    let err = tool.call(&args).unwrap_err();
    assert!(err.contains("options"));
}

#[test]
fn reads_corpus_doc_by_id() {
    let tool = CorpusReadTool::new();
    let req = parse_request(&obj(vec![
        ("id", s("wikis/principles/concepts/margin-of-safety")),
        ("max_chars", json_u64(2000)),
    ]))
    .unwrap();
    let doc = CorpusDoc {
        id: "wikis/principles/concepts/margin-of-safety".to_string(),
        title: "Margin of Safety".to_string(),
        tier: "principle".to_string(),
        layer: "concept".to_string(),
        tags: vec!["value".to_string()],
        body: "Buy below value.".to_string(),
    };
    let out = tool.call(&req, Some(&doc)).unwrap();
    assert!(out.contains("# Margin of Safety"));
    assert!(out.contains("wikis/principles/concepts/margin-of-safety"));
}

#[test]
fn unknown_doc_errors() {
    let tool = CorpusReadTool::new();
    let req = parse_request(&obj(vec![("id", s("wikis/principles/concepts/nope"))])).unwrap();
    let err = tool.call(&req, None).unwrap_err();
    assert!(err.contains("corpus document not found"));
}

#[test]
fn missing_query_is_structured_error() {
    assert_eq!(
        search_request(&obj(vec![])).err().unwrap(),
        "corpus_search: missing required string argument 'query'."
    );
}

#[test]
fn empty_query_is_structured_error() {
    assert_eq!(
        search_request(&obj(vec![("query", s("   "))])).err().unwrap(),
        "corpus_search: 'query' must be non-empty."
    );
}

#[test]
fn limit_caps_returned_hits() {
    let req = search_request(&obj(vec![("query", s(" the ")), ("limit", json_u64(1))])).unwrap();
    assert_eq!(req.query, "the");
    assert_eq!(req.limit, 1);
    let req = search_request(&obj(vec![("query", s("x")), ("limit", json_u64(99))])).unwrap();
    assert_eq!(req.limit, 25);
    let req = search_request(&obj(vec![("query", s("x")), ("limit", json_u64(0))])).unwrap();
    assert_eq!(req.limit, 1);
    assert_eq!(search_request(&obj(vec![("query", s("x"))])).unwrap().limit, 5);
}

#[test]
fn empty_hits_for_unknown_term() {
    assert_eq!(hits_reply("zzz", &Vec::new()), "Found 0 hits for \"zzz\".");
}

#[test]
fn hits_are_numbered() {
    let hits = vec![
        CorpusHit { id: "a.md".into(), title: "A".into(), snippet: "sa".into() },
        CorpusHit { id: "b.md".into(), title: "B".into(), snippet: "sb".into() },
    ];
    assert_eq!(
        hits_reply("q", &hits),
        "Found 2 hits for \"q\":\n1. a.md — A\n   sa\n2. b.md — B\n   sb\n"
    );
}
