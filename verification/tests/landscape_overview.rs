use gateway::industry_landscape::industry_keyword;
use gateway::json::Json;
use gateway::market_overview::focus_hint_for;
use gateway::tool_args::{industry_landscape_args, macro_indicators_focus, market_overview_focus, stock_overview_focus};

fn obj(members: Vec<(&str, &str)>) -> Json {
    Json::Object(members.into_iter().map(|(k, v)| (k.to_string(), Json::String(v.to_string()))).collect())
}

#[test]
fn industry_keyword_strips_sw_tier_suffixes() {
    assert_eq!(industry_keyword("白酒Ⅱ"), "白酒");
    assert_eq!(industry_keyword("半导体Ⅲ"), "半导体");
    assert_eq!(industry_keyword("工业金属"), "工业金属");
    assert_eq!(industry_keyword("化学制品"), "化学制品");
}

#[test]
fn focus_hint_snapshot_full_menu() {
    let h = focus_hint_for("snapshot");
    assert!(h.contains("其他视角"));
    assert!(h.contains("focus=\"capital_flow\""));
    assert!(h.contains("focus=\"hot_industries\""));
    assert!(h.contains("focus=\"extreme_movers\""));
    assert!(h.contains("focus=\"north_money\""));
}

#[test]
fn focus_hint_non_snapshot_short_hint() {
    for f in ["capital_flow", "hot_industries", "extreme_movers", "north_money"] {
        let h = focus_hint_for(f);
        assert!(h.contains("互为补充"), "focus={f} missing cross-link");
    }
    assert!(focus_hint_for("zzz_unknown").is_empty());
}

#[test]
fn industry_landscape_invalid_focus_is_structured_error() {
    let out = industry_landscape_args(&obj(vec![("target", "白酒"), ("focus", "vibes")]));
    assert_eq!(
        out.unwrap_err(),
        "industry_landscape: invalid focus 'vibes' (try leaders/valuation/capital_flow/concepts/index)"
    );
}

#[test]
fn missing_target_is_structured_error() {
    let out = industry_landscape_args(&obj(vec![]));
    assert_eq!(out.unwrap_err(), "industry_landscape: missing 'target' (symbol or industry name).");
}

#[test]
fn industry_landscape_defaults_to_leaders() {
    let (target, focus) = industry_landscape_args(&obj(vec![("target", "白酒")])).unwrap();
    assert_eq!(target, "白酒");
    assert_eq!(focus, "leaders");
}

#[test]
fn market_overview_invalid_focus_is_structured_error() {
    let out = market_overview_focus(&obj(vec![("focus", "vibes")]));
    assert!(out.unwrap_err().contains("market_overview: invalid focus 'vibes'"));
    assert_eq!(market_overview_focus(&obj(vec![])).unwrap(), "snapshot");
}

#[test]
fn macro_indicators_invalid_focus_is_structured_error() {
    let out = macro_indicators_focus(&obj(vec![("focus", "everything")]));
    let e = out.unwrap_err();
    assert!(e.contains("focus"));
    assert_eq!(e, "macro_indicators: invalid focus 'everything' (try inflation/growth/money/policy/calendar/intl_rates)");
    assert_eq!(macro_indicators_focus(&obj(vec![])).unwrap(), "inflation");
}

#[test]
fn stock_overview_invalid_focus_is_structured_error() {
    let out = stock_overview_focus(&obj(vec![("symbol", "600519.SH"), ("focus", "vibes")]));
    assert!(out.is_err());
    assert_eq!(stock_overview_focus(&obj(vec![("focus", "technical")])).unwrap(), "technical");
}
