use gateway::json::{json_u64, Json};
use gateway::tool_args::{
    announcements_args, business_breakdown_args, chart_data_args, industry_peers_dimension, market_pulse_symbols,
    recent_actions_args, required_str, top_holders_kind, wants,
};
use gateway::vendor_chain::{
    announcements_reply, attempts_summary, concepts_reply, fallback_reply, AnnouncementLine, AttemptResult, ChainStatus,
    VendorChain, VendorTool,
};

fn obj(members: Vec<(&str, Json)>) -> Json {
    Json::Object(members.into_iter().map(|(k, v)| (k.to_string(), v)).collect())
}

fn s(x: &str) -> Json {
    Json::String(x.to_string())
}

#[test]
fn days_out_of_range_is_structured_error() {
    let out = announcements_args(&obj(vec![("symbol", s("600519.SH")), ("days", json_u64(999))]));
    let e = out.unwrap_err();
    assert!(e.contains("days"));
    assert_eq!(e, "get_announcements: days must be in 1..=365 (got 999).");
}

#[test]
fn invalid_type_is_structured_error() {
    let out = announcements_args(&obj(vec![("symbol", s("600519.SH")), ("type", s("宇宙合并"))]));
    let e = out.unwrap_err();
    assert!(e.contains("type"));
    assert_eq!(announcements_args(&obj(vec![("type", s("回购"))])).unwrap(), (30, Some("回购".to_string())));
}

#[test]
fn invalid_dim_is_structured_error() {
    let out = business_breakdown_args(&obj(vec![("symbol", s("600519.SH")), ("dim", s("everything"))]));
    let e = out.unwrap_err();
    assert!(e.contains("dim"));
    assert_eq!(e, "get_business_breakdown: invalid dim 'everything' (try product/industry/region).");
    assert_eq!(business_breakdown_args(&obj(vec![])).unwrap(), ("product".to_string(), String::new()));
}

#[test]
fn invalid_dimension_is_structured_error() {
    let out = industry_peers_dimension(&obj(vec![("symbol", s("600519.SH")), ("dimension", s("everything"))]));
    assert!(out.unwrap_err().contains("dimension"));
    assert_eq!(industry_peers_dimension(&obj(vec![])).unwrap(), "valuation");
}

#[test]
fn get_industry_peers_missing_symbol_arg_is_structured_error() {
    let out = required_str(&obj(vec![]), "symbol", "get_industry_peers: missing required argument 'symbol'.");
    assert!(out.unwrap_err().contains("symbol"));
}

#[test]
fn get_top_holders_invalid_kind_is_structured_error() {
    let out = top_holders_kind(&obj(vec![("symbol", s("600519.SH")), ("kind", s("control"))]));
    assert!(out.unwrap_err().contains("kind"));
    assert_eq!(top_holders_kind(&obj(vec![("kind", s("float"))])).unwrap(), "float");
}

#[test]
fn invalid_range_is_structured_error() {
    let out = chart_data_args(&obj(vec![("symbol", s("600519.SH")), ("range", s("decade"))]));
    assert_eq!(out.err().unwrap(), "chart_data: invalid range 'decade' (try 1d/5d/1m/3m/6m/1y/3y/5y)");
}

#[test]
fn chart_data_invalid_kind_is_structured_error() {
    let out = chart_data_args(&obj(vec![("symbol", s("600519.SH")), ("kind", s("vibes"))]));
    assert!(out.is_err());
}

#[test]
fn chart_ranges_map_to_bars() {
    let a = chart_data_args(&obj(vec![])).unwrap();
    assert_eq!((a.range.as_str(), a.kind.as_str(), a.granularity.as_str(), a.want_count), ("3m", "candles", "daily", 66));
    let a = chart_data_args(&obj(vec![("range", s("3y"))])).unwrap();
    assert_eq!((a.granularity.as_str(), a.want_count), ("weekly", 156));
    let a = chart_data_args(&obj(vec![("range", s("5y"))])).unwrap();
    assert_eq!((a.granularity.as_str(), a.want_count), ("monthly", 60));
}

#[test]
fn missing_symbols_is_structured_error() {
    assert_eq!(market_pulse_symbols(&obj(vec![])).unwrap_err(), "market_pulse: missing 'symbols' (array).");
    assert_eq!(
        market_pulse_symbols(&obj(vec![("symbols", Json::Array(vec![]))])).unwrap_err(),
        "market_pulse: 'symbols' must have ≥ 1 element."
    );
}

#[test]
fn too_many_symbols_is_structured_error() {
    let arr: Vec<Json> = (0..11).map(|i| s(&format!("60051{i}.SH"))).collect();
    let e = market_pulse_symbols(&obj(vec![("symbols", Json::Array(arr))])).unwrap_err();
    assert!(e.contains("cap"));
    assert_eq!(e, "market_pulse: too many symbols (11) — cap is 10");
    let ok = market_pulse_symbols(&obj(vec![("symbols", Json::Array(vec![s("600519.SH"), json_u64(1)]))])).unwrap();
    assert_eq!(ok, vec!["600519.SH".to_string(), String::new()]);
}

#[test]
fn invalid_days_is_structured_error() {
    let out = recent_actions_args(&obj(vec![("symbol", s("600519.SH")), ("days", json_u64(0))]));
    assert_eq!(out.err().unwrap(), "recent_actions: days must be in 1..=365 (got 0)");
}

#[test]
fn invalid_filter_is_structured_error() {
    let out = recent_actions_args(&obj(vec![("symbol", s("600519.SH")), ("filter", Json::Array(vec![s("bogus")]))]));
    assert!(out.err().unwrap().starts_with("recent_actions: invalid filter 'bogus' (try announcement/insider_trade/"));
    let ok = recent_actions_args(&obj(vec![("filter", Json::Array(vec![s("dividend")]))])).unwrap();
    assert_eq!(ok.days, 30);
    assert!(wants(&ok.filters, "dividend"));
    assert!(!wants(&ok.filters, "pledge"));
    assert!(wants(&Vec::new(), "pledge"));
}

#[test]
fn market_quote_missing_symbol_arg_is_structured_error() {
    let e = required_str(&obj(vec![]), "symbol", "market_quote: missing required string argument 'symbol'.").unwrap_err();
    assert!(e.contains("symbol"));
}

#[test]
fn get_consensus_missing_symbol_is_structured_error() {
    let e = required_str(&obj(vec![]), "symbol", "get_consensus: missing required argument 'symbol'.").unwrap_err();
    assert!(e.contains("symbol"));
    assert_eq!(required_str(&obj(vec![("symbol", s("x"))]), "symbol", "m").unwrap(), "x");
}

#[test]
fn stock_overview_missing_symbol_is_structured_error() {
    let e = required_str(&obj(vec![]), "symbol", "stock_overview: missing required 'symbol'.").unwrap_err();
    assert_eq!(e, "stock_overview: missing required 'symbol'.");
}

#[test]
fn chain_serves_first_success_after_recoverable_failures() {
    let mut c = VendorChain::new(2);
    c.record("tushare", &AttemptResult::Refused { message: "no token".into(), recoverable: true });
    assert!(c.status == ChainStatus::Running);
    c.record("eastmoney", &AttemptResult::Answered);
    assert!(c.status == ChainStatus::Served(1));
    assert_eq!(attempts_summary(&c.attempts), "tushare: no token; eastmoney: ok");
}

#[test]
fn chain_stops_at_unrecoverable_failure() {
    let mut c = VendorChain::new(2);
    c.record("tushare", &AttemptResult::Refused { message: "bad symbol".into(), recoverable: false });
    assert!(c.status == ChainStatus::Failed);
    assert_eq!(c.tried, 1);
    let mut d = VendorChain::new(1);
    d.record("tushare", &AttemptResult::Refused { message: "down".into(), recoverable: true });
    assert!(d.status == ChainStatus::Failed);
    assert!(VendorChain::new(0).status == ChainStatus::Failed);
}

#[test]
fn fallback_replies_name_the_tool() {
    assert_eq!(
        fallback_reply(&VendorTool::Consensus, "tushare: x"),
        "get_consensus: 一致预期数据不可用（tushare: x）。请明确告知用户卖方一致预期暂时拿不到；不要编造目标价或评级数字。"
    );
    assert!(fallback_reply(&VendorTool::MarketQuote, "a: b").starts_with("market_quote: every data source failed (a: b)."));
}

#[test]
fn announcement_and_concept_replies() {
    let items: Vec<AnnouncementLine> = (1..=6)
        .map(|i| AnnouncementLine { date: format!("2026-05-0{i}"), title: format!("T{i}") })
        .collect();
    let r = announcements_reply("600519.SH", 30, &Some("回购".to_string()), &items);
    assert_eq!(
        r,
        "600519.SH 近 30 天（类型 = 回购）共 6 条公告。前 5 条：2026-05-01 T1；2026-05-02 T2；2026-05-03 T3；2026-05-04 T4；2026-05-05 T5。完整列表见 display_payload.items。"
    );
    let names: Vec<String> = ["a", "b"].iter().map(|s| s.to_string()).collect();
    assert_eq!(concepts_reply("X", &names), "X 所属概念 / 题材共 2 个，前几个：a、b。完整列表见 display_payload.concepts。");
}
