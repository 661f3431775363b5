use gateway::get_candlesticks::{a_share_interval_notice, candle_limit, Interval};
use gateway::get_financials::unique_rows_by_field;
use gateway::json::{json_u64, Json};
use gateway::read_pdf::finalize;

fn s(x: &str) -> Json {
    Json::String(x.to_string())
}

#[test]
fn successive_windows_read_the_text_in_order() {
    let text = "0123456789abcdef";
    let first = finalize("u", text, 3, 5, "text", false).unwrap();
    let second = finalize("u", text, first.next_offset, 4, "text", false).unwrap();
    assert_eq!(format!("{}{}", first.body, second.body), "3456789ab");
    let last = finalize("u", text, second.next_offset, 100, "text", false).unwrap();
    assert_eq!(last.body, "cdef");
    assert!(!last.has_more);
}

#[test]
fn unique_rows_keep_the_first_of_each_key() {
    let fields = vec!["end_date".to_string(), "revenue".to_string()];
    let rows = vec![
        vec![s("20251231"), json_u64(1)],
        vec![s("20251231"), json_u64(2)],
        vec![s(""), json_u64(3)],
        vec![s("20250930"), json_u64(4)],
        vec![s("20250630"), json_u64(5)],
    ];
    let kept = unique_rows_by_field(rows, &fields, "end_date", 2);
    assert_eq!(kept.len(), 2);
    assert_eq!(kept[0][1].as_u64(), Some(1));
    assert_eq!(kept[1][1].as_u64(), Some(4));
}

#[test]
fn unique_rows_without_the_field_take_the_first_rows() {
    let fields = vec!["x".to_string()];
    let rows = vec![vec![s("a")], vec![s("a")], vec![s("b")]];
    assert_eq!(unique_rows_by_field(rows, &fields, "end_date", 2).len(), 2);
}

#[test]
fn candle_limits_and_notice() {
    assert_eq!(candle_limit(None), 30);
    assert_eq!(candle_limit(Some(0)), 1);
    assert_eq!(candle_limit(Some(500)), 200);
    assert_eq!(candle_limit(Some(45)), 45);
    assert!(a_share_interval_notice(Interval::Minute15).unwrap().contains("15m candles are not available"));
    assert!(a_share_interval_notice(Interval::Day).is_none());
}
