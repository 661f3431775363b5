use gateway::get_china_fund_context as fund;
use gateway::get_china_index_context as index;
use gateway::get_china_macro_context::topics;
use gateway::json::{json_u64, Json, JsonNumber};
use gateway::table::Table;

fn empty_object() -> Json {
    Json::Object(Vec::new())
}

#[test]
fn infers_market_from_fund_code() {
    assert_eq!(fund::infer_market(Some("510300.SH")), "E");
    assert_eq!(fund::infer_market(Some("159915.SZ")), "E");
    assert_eq!(fund::infer_market(Some("110022.OF")), "O");
    assert_eq!(fund::infer_market(None), "E");
}

#[test]
fn get_china_fund_context_defaults_sections_by_code_presence() {
    assert_eq!(fund::sections(&empty_object(), false), vec!["profile"]);
    let with_code = fund::sections(&empty_object(), true);
    assert!(with_code.contains(&"profile".to_string()));
    assert!(with_code.contains(&"portfolio".to_string()));
    assert!(with_code.contains(&"dividend".to_string()));
}

#[test]
fn renders_valid_empty_quote_as_data_gap() {
    let table = Table {
        fields: vec!["trade_date".into()],
        rows: Vec::new(),
    };
    let out = fund::render_quote(&table);
    assert!(out.contains("No exchange quote returned"));
}

#[test]
fn fund_basic_params_include_market_and_optional_code() {
    let params = fund::fund_basic_params(Some("510300.SH"), "E");
    assert_eq!(params.get("market").and_then(|v| v.as_str()), Some("E"));
    assert_eq!(params.get("ts_code").and_then(|v| v.as_str()), Some("510300.SH"));
}

#[test]
fn fund_basic_params_without_code_hold_only_market() {
    let params = fund::fund_basic_params(None, "O");
    assert_eq!(params.get("market").and_then(|v| v.as_str()), Some("O"));
    assert!(params.get("ts_code").is_none());
}

#[test]
fn infers_market_from_index_code() {
    assert_eq!(index::infer_market(Some("885710.TI")), "THS");
    assert_eq!(index::infer_market(Some("801120.SI")), "SW");
    assert_eq!(index::infer_market(Some("000300.SH")), "SSE");
    assert_eq!(index::infer_market(Some("399001.SZ")), "SZSE");
    assert_eq!(index::infer_market(None), "CSI");
}

#[test]
fn detects_ths_index() {
    assert!(index::is_ths_index(Some("885710.TI"), "CSI"));
    assert!(index::is_ths_index(None, "THS"));
    assert!(!index::is_ths_index(Some("000300.SH"), "SSE"));
}

#[test]
fn get_china_index_context_defaults_sections_by_code_presence() {
    assert_eq!(index::sections(&empty_object(), false), vec!["profile"]);
    let with_code = index::sections(&empty_object(), true);
    assert!(with_code.contains(&"quote".to_string()));
    assert!(with_code.contains(&"weights".to_string()));
}

#[test]
fn renders_empty_weights_as_data_gap() {
    let table = Table {
        fields: vec!["trade_date".into()],
        rows: Vec::new(),
    };
    let out = index::render_weights(&table);
    assert!(out.contains("No constituent weight rows returned"));
}

#[test]
fn defaults_to_all_macro_topics() {
    let ts = topics(&empty_object());
    assert!(ts.contains(&"growth".to_string()));
    assert!(ts.contains(&"calendar".to_string()));
}

#[test]
fn row_summary_skips_nulls() {
    let table = Table {
        fields: vec!["month".into(), "m2_yoy".into(), "empty".into()],
        rows: vec![],
    };
    let row = vec![
        Json::String("202604".to_string()),
        Json::Number(JsonNumber {
            text: "7.2".to_string(),
            as_u64: None,
            as_i64: None,
            truncated: Some(7),
        }),
        Json::Null,
    ];
    let summary = table.row_summary(&row);
    assert!(summary.contains("月份=202604"));
    assert!(summary.contains("M2同比=7.2"));
    assert!(!summary.contains("empty="));
}

#[test]
fn row_summary_prints_integers_as_given() {
    let table = Table {
        fields: vec!["month".into()],
        rows: vec![],
    };
    let row = vec![json_u64(202605)];
    assert!(table.row_summary(&row).contains("月份=202605"));
}
