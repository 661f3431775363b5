use gateway::get_a_share_market_snapshot::{eastmoney_secid, first_text, push_section_result as push_snapshot_section};
use gateway::table::Table;

#[test]
fn first_text_returns_empty_for_valid_empty_table() {
    let table = Table {
        fields: vec!["close".into()],
        rows: Vec::new(),
    };
    assert_eq!(first_text(&table, "close"), "");
}

#[test]
fn get_a_share_market_snapshot_eastmoney_secid_maps_a_share_suffixes() {
    assert_eq!(eastmoney_secid("600519.SH").unwrap(), "1.600519");
    assert_eq!(eastmoney_secid("000001.SZ").unwrap(), "0.000001");
    assert_eq!(eastmoney_secid("430047.BJ").unwrap(), "0.430047");
}

#[test]
fn snapshot_secid_rejects_unknown_suffix() {
    assert!(eastmoney_secid("AAPL").is_err());
}

#[test]
fn snapshot_sections_record_failures_but_stop_on_abort() {
    let mut sections: Vec<String> = Vec::new();
    assert!(push_snapshot_section(&mut sections, "实时行情", "eastmoney", Ok("## 实时行情".to_string()), false).is_ok());
    assert!(push_snapshot_section(&mut sections, "收盘", "tushare", Err("HTTP 502".to_string()), false).is_ok());
    assert_eq!(sections.len(), 2);
    assert_eq!(sections[0], "## 实时行情");
    assert!(sections[1].starts_with("## 收盘 · "));
    assert!(sections[1].contains("来源不可用：HTTP 502"));
    let r = push_snapshot_section(&mut sections, "收盘", "tushare", Err("aborted during parse".to_string()), false);
    assert!(r.is_err());
    assert_eq!(sections.len(), 2);
}
