use gateway::delegate_research::format_subagent_instruction;
use gateway::echo;
use gateway::json::Json;
use gateway::tools::{dispatch_error, specs, summary_snippet, DispatchCtx};

#[test]
fn dispatch_unknown_tool_is_a_structured_error() {
    let ctx: DispatchCtx<'_, ()> = DispatchCtx::for_test();
    let out = dispatch_error("nope", ctx.st.is_some()).unwrap();
    assert!(out.is_error);
    assert!(out.model_output.contains("unknown tool"));
    assert_eq!(out.model_output, "unknown tool 'nope' — it is not in the available tool set");
}

#[test]
fn dispatch_task_without_appstate_returns_error_not_panic() {
    let ctx: DispatchCtx<'_, ()> = DispatchCtx::for_test();
    let out = dispatch_error("task", ctx.st.is_some()).unwrap();
    assert!(out.is_error);
    assert!(out.model_output.contains("not available"));
    assert!(dispatch_error("task", true).is_none());
    assert!(dispatch_error("read_pdf", false).is_none());
}

#[test]
fn use_skill_tool_is_only_advertised_when_registry_non_empty() {
    assert!(!specs(false).contains(&"use_skill".to_string()));
    assert!(specs(true).contains(&"use_skill".to_string()));
}

#[test]
fn task_tool_is_always_offered() {
    assert!(specs(false).contains(&"task".to_string()));
    assert!(specs(true).contains(&"task".to_string()));
}

#[test]
fn summary_snippet_collapses_and_cuts() {
    assert_eq!(summary_snippet("  a \n b  "), "a b");
    let long = "x".repeat(50);
    assert_eq!(summary_snippet(&long), format!("{}…", "x".repeat(40)));
}

#[test]
fn subagent_instruction_is_defined_by_call_arguments() {
    let text = format_subagent_instruction("bear-case skeptic", "只检查永久损失路径", "列三条证据");
    assert!(text.contains("bear-case skeptic"));
    assert!(text.contains("只检查永久损失路径"));
    assert!(text.contains("列三条证据"));
}

#[test]
fn echoes_text_verbatim() {
    let args = Json::Object(vec![("text".to_string(), Json::String("leek-m1".to_string()))]);
    let out = echo::run(&args);
    assert!(!out.is_error);
    assert_eq!(out.model_output, "leek-m1");
    assert_eq!(out.display_payload.get("text").and_then(|v| v.as_str()), Some("leek-m1"));
    assert_eq!(out.debug_payload.get("char_count").and_then(|v| v.as_u64()), Some(7));
}

#[test]
fn missing_text_is_a_structured_error() {
    let out = echo::run(&Json::Object(Vec::new()));
    assert!(out.is_error);
    assert_eq!(out.model_output, "echo: missing required string argument 'text'.");
}
