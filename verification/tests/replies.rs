use gateway::chart_data::chart_reply;
use gateway::coverage::{gap_reply, take_answer, take_rows, Coverage};
use gateway::industry_landscape::{landscape_reply, resolve_industry, IndustryLookup};
use gateway::json::{json_u64, Json};
use gateway::macro_indicators::indicators_reply;
use gateway::market_overview::{focus_hint_for, overview_reply as market_reply};
use gateway::market_pulse::pulse_reply;
use gateway::record_investment_action::{
    action_event_payload, action_payload, figure, mandate_check_of, validate_action,
};
use gateway::recent_actions::actions_reply;
use gateway::research_sentiment::sentiment_reply;
use gateway::stock_overview::overview_reply as stock_reply;

fn obj(members: Vec<(&str, Json)>) -> Json {
    Json::Object(members.into_iter().map(|(k, v)| (k.to_string(), v)).collect())
}

fn s(x: &str) -> Json {
    Json::String(x.to_string())
}

fn member<'a>(j: &'a Json, key: &str) -> Option<&'a Json> {
    j.get(key)
}

fn strings(j: Option<&Json>) -> Vec<String> {
    match j {
        Some(Json::Array(a)) => a.iter().filter_map(|x| x.as_str().map(str::to_string)).collect(),
        _ => panic!("not an array"),
    }
}

fn gapped() -> Coverage {
    let mut c = Coverage::new();
    let rows = take_rows(&mut c, Ok(vec![s("r")]), "Tushare cn_cpi", "2024-06-03", "cpi");
    assert_eq!(rows.len(), 1);
    let none = take_rows(&mut c, Ok(Vec::new()), "Tushare cn_ppi", "2024-06-03", "ppi");
    assert!(none.is_empty());
    let failed = take_answer(&mut c, Err("HTTP 500".to_string()), "Tushare stock_basic", "2024-06-03", "basic");
    assert!(failed.is_empty());
    c
}

#[test]
fn gaps_are_reply_data_not_errors() {
    let c = gapped();
    assert_eq!(c.empty_dimensions, vec!["ppi", "basic:HTTP 500"]);
    let r = gap_reply("macro_indicators", "inflation", "md".to_string(), obj(vec![("cpi", Json::Array(vec![]))]), &c);
    assert!(!r.is_error);
    assert_eq!(r.model_output, "md");
    assert_eq!(member(&r.display_payload, "kind").and_then(|k| k.as_str()), Some("macro_indicators"));
    assert_eq!(member(&r.display_payload, "focus").and_then(|k| k.as_str()), Some("inflation"));
    assert_eq!(strings(member(&r.display_payload, "empty_dimensions")), vec!["ppi", "basic:HTTP 500"]);
    assert_eq!(strings(member(&r.display_payload, "sources")), vec!["Tushare cn_cpi @ 2024-06-03"]);
    assert!(member(&r.display_payload, "data").is_some());
    assert_eq!(member(&r.debug_payload, "focus").and_then(|k| k.as_str()), Some("inflation"));
}

#[test]
fn tool_replies_close_with_their_coverage() {
    let c = gapped();
    let r = indicators_reply("inflation", "## 通胀\n".to_string(), Json::Null, &c);
    assert!(r.model_output.starts_with("## 通胀\n\n_缺失维度: ppi, basic:HTTP 500_\n\n数据来源: Tushare cn_cpi @ 2024-06-03\n"));
    let r = market_reply("snapshot", "## 大盘\n".to_string(), Json::Null, &c);
    assert!(r.model_output.ends_with(focus_hint_for("snapshot")));
    let r = stock_reply("valuation", "600519.SH", "600519", "## x\n".to_string(), Json::Null, &c);
    assert!(!r.is_error);
    assert_eq!(member(&r.display_payload, "symbol").and_then(|k| k.as_str()), Some("600519.SH"));
    assert_eq!(member(&r.debug_payload, "symbol_input").and_then(|k| k.as_str()), Some("600519"));
    let r = landscape_reply("白酒", "白酒", "leaders", "## 行业\n".to_string(), Json::Null, &c);
    assert_eq!(member(&r.display_payload, "industry").and_then(|k| k.as_str()), Some("白酒"));
    let r = actions_reply("600519.SH", "600519.sh", 30, &vec!["announcement".to_string()], Json::Array(vec![]), "md".to_string(), &c);
    assert_eq!(r.model_output, "md");
    assert_eq!(strings(member(&r.display_payload, "filter")), vec!["announcement"]);
    assert_eq!(member(&r.display_payload, "days").and_then(|d| d.as_u64()), Some(30));
    let r = sentiment_reply("600519.SH", "600519", Json::Null, Json::Null, 3, Json::Null, Json::Null, false, "md".to_string(), &c);
    assert_eq!(member(&r.display_payload, "rc_count").and_then(|d| d.as_u64()), Some(3));
    assert_eq!(member(&r.debug_payload, "throttle_allowed").and_then(|d| d.as_bool()), Some(false));
    let r = pulse_reply(&vec!["600519.SH".to_string(), "000001.SZ".to_string()], Json::Array(vec![]), "md".to_string(), &c);
    assert!(r.model_output.ends_with("\n_技术指标值原样,agent 自行判断'超买/超卖'。_\n"));
    assert_eq!(member(&r.debug_payload, "count").and_then(|d| d.as_u64()), Some(2));
    let r = chart_reply("600519.SH", "600519", "3m", "candles", Json::Null, Json::Null, Json::Null, "md".to_string(), &c);
    assert_eq!(member(&r.display_payload, "view").and_then(|d| d.as_str()), Some("candles"));
    assert_eq!(strings(member(&r.display_payload, "sources")), vec!["Tushare cn_cpi @ 2024-06-03"]);
}

#[test]
fn industry_lookup_gaps_end_the_call_without_an_error() {
    let mut c = Coverage::new();
    assert_eq!(resolve_industry("白酒", "leaders", IndustryLookup::NotASymbol, "d", &mut c).ok().unwrap(), "白酒");
    assert_eq!(
        resolve_industry("600519.SH", "leaders", IndustryLookup::Found("白酒Ⅱ".to_string()), "d", &mut c).ok().unwrap(),
        "白酒Ⅱ"
    );
    assert_eq!(c.sources, vec!["Tushare stock_basic @ d"]);
    let mut c = Coverage::new();
    let o = resolve_industry("600519.SH", "leaders", IndustryLookup::Unclassified, "d", &mut c).err().unwrap();
    assert!(!o.is_error);
    assert_eq!(o.model_output, "## 600519.SH\n\n上游未给该 symbol 的行业分类。\n");
    assert_eq!(strings(member(&o.display_payload, "empty_dimensions")), vec!["industry_unknown"]);
    let mut c = Coverage::new();
    let o = resolve_industry("600519.SH", "leaders", IndustryLookup::Failed("timeout".to_string()), "d", &mut c).err().unwrap();
    assert_eq!(o.model_output, "## 600519.SH\n\n查询行业失败: timeout\n");
    assert_eq!(strings(member(&o.display_payload, "empty_dimensions")), vec!["stock_basic:timeout"]);
}

#[test]
fn decision_draft_payloads() {
    let args = obj(vec![
        ("ticker", s(" 600519.SH ")),
        ("direction", s("long")),
        ("rationale", s("moat")),
        ("size_pct", json_u64(5)),
        ("horizon_days", json_u64(90)),
        ("risks", Json::Array(vec![s("channel inventory")])),
        ("opposing_case", s("valuation")),
        ("corpus_refs", Json::Array(vec![])),
        ("mandate_check", obj(vec![("fits_mandate", Json::Bool(true)), ("notes", s("cap 10%"))])),
        ("invalidation_conditions", s("EPS cut twice")),
    ]);
    let a = validate_action(&args).ok().unwrap();
    let size = figure(&args, "size_pct");
    assert_eq!(size.as_u64(), Some(5));
    assert!(matches!(figure(&args, "stop_loss"), Json::Null));
    let p = action_payload(&a, size, Json::Null, Json::Null, mandate_check_of(args), "sess");
    assert_eq!(p.get("ticker").and_then(|t| t.as_str()), Some("600519.SH"));
    assert_eq!(p.get("horizon_days").and_then(|t| t.as_i64()), Some(90));
    assert_eq!(p.get("session_id").and_then(|t| t.as_str()), Some("sess"));
    assert_eq!(p.get("mandate_check").and_then(|m| m.get("notes")).and_then(|t| t.as_str()), Some("cap 10%"));
    let e = action_event_payload(&a, None, "d-1", Json::Null, Json::Null, Json::Null, Json::Null);
    assert!(matches!(e.get("task_id"), Some(Json::Null)));
    assert_eq!(e.get("deliverable_id").and_then(|t| t.as_str()), Some("d-1"));
    assert_eq!(strings(e.get("risks")), vec!["channel inventory"]);
}

#[test]
fn row_sources_fill_the_focus_data() {
    use_rows_data();
}

fn use_rows_data() {
    let mut c = Coverage::new();
    let srcs = vec![
        gateway::coverage::SourceRows {
            key: "cpi".to_string(),
            label: "Tushare cn_cpi".to_string(),
            dimension: "cpi".to_string(),
            result: Ok(vec![s("a"), s("b")]),
        },
        gateway::coverage::SourceRows {
            key: "ppi".to_string(),
            label: "Tushare cn_ppi".to_string(),
            dimension: "ppi".to_string(),
            result: Err("down".to_string()),
        },
    ];
    let data = gateway::coverage::rows_data(&mut c, srcs, "2024-06-03");
    assert!(matches!(data.get("cpi"), Some(Json::Array(a)) if a.len() == 2));
    assert!(matches!(data.get("ppi"), Some(Json::Array(a)) if a.is_empty()));
    assert_eq!(c.sources, vec!["Tushare cn_cpi @ 2024-06-03"]);
    assert_eq!(c.empty_dimensions, vec!["ppi"]);
}
