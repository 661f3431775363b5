use gateway::get_a_share_industry_context::{industry_name_matches, matching_flow_rows, select_industry};
use gateway::json::Json;
use gateway::table::Table;

fn s(x: &str) -> Json {
    Json::String(x.to_string())
}

#[test]
fn selects_l2_before_other_levels() {
    let table = Table {
        fields: vec![
            "l1_code".into(),
            "l1_name".into(),
            "l2_code".into(),
            "l2_name".into(),
            "l3_code".into(),
            "l3_name".into(),
        ],
        rows: vec![vec![
            s("801120.SI"),
            s("食品饮料"),
            s("801123.SI"),
            s("白酒"),
            s("80112301.SI"),
            s("白酒III"),
        ]],
    };
    let selected = select_industry(&table, None, "L2").unwrap();
    assert_eq!(selected.code, "801123.SI");
    assert_eq!(selected.name, "白酒");
}

#[test]
fn matching_flow_uses_industry_names() {
    let classification = Table {
        fields: vec!["l1_name".into(), "l2_name".into()],
        rows: vec![vec![s("食品饮料"), s("白酒")]],
    };
    let flow = Table {
        fields: vec!["ts_code".into(), "industry".into()],
        rows: vec![vec![s("x"), s("白酒")], vec![s("y"), s("银行")]],
    };
    assert_eq!(matching_flow_rows(&flow, &classification, "z").len(), 1);
}

#[test]
fn industry_name_matching_ignores_level_suffixes() {
    let names = vec!["白酒III".to_string()];
    assert!(industry_name_matches("白酒", &names));
    let names = vec!["白酒".to_string()];
    assert!(industry_name_matches("白酒Ⅱ", &names));
}

#[test]
fn industry_name_matching_rejects_other_industries() {
    let names = vec!["银行".to_string()];
    assert!(!industry_name_matches("白酒", &names));
}

#[test]
fn trade_date_candidates_skip_weekends() {
    use_candidates();
}

fn use_candidates() {
    // 2024-06-03 is a Monday.
    let days = gateway::get_a_share_industry_context::recent_trade_date_candidates((2024, 6, 3), 4);
    assert_eq!(days, vec!["20240603", "20240531", "20240530", "20240529"]);
    let none = gateway::get_a_share_industry_context::recent_trade_date_candidates((2024, 6, 2), 0);
    assert!(none.is_empty());
    // Starting on a Sunday crosses a month and a year.
    let days = gateway::get_a_share_industry_context::recent_trade_date_candidates((2023, 1, 1), 2);
    assert_eq!(days, vec!["20221230", "20221229"]);
    assert_eq!(gateway::get_a_share_industry_context::compact_date_text((987, 3, 7)), "09870307");
}
