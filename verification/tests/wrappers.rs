use gateway::get_a_share_market_snapshot::{eastmoney_epoch_text, eastmoney_secid};
use gateway::get_capital_flow::eastmoney_secid as flow_secid;
use gateway::json::{json_u64, Json};
use gateway::tools::is_abort_error;
use gateway::tushare::{answer_error, tushare_data, tushare_extract};

fn obj(members: Vec<(&str, Json)>) -> Json {
    Json::Object(members.into_iter().map(|(k, v)| (k.to_string(), v)).collect())
}

fn s(x: &str) -> Json {
    Json::String(x.to_string())
}

#[test]
fn secid_accepts_lower_case_suffixes() {
    assert_eq!(eastmoney_secid(" 600519.sh ").unwrap(), "1.600519");
    assert_eq!(flow_secid("000001.sz").unwrap(), "0.000001");
}

#[test]
fn epoch_seconds_render_in_beijing_time() {
    assert_eq!(eastmoney_epoch_text(Some(&json_u64(0))), "1970-01-01 08:00:00");
    assert_eq!(eastmoney_epoch_text(Some(&s("86400"))), "1970-01-02 08:00:00");
    assert_eq!(eastmoney_epoch_text(Some(&s("n/a"))), "n/a");
    assert_eq!(eastmoney_epoch_text(None), "");
}

#[test]
fn abort_errors_are_found_in_any_case() {
    assert!(is_abort_error(false, "Request ABORTED by user"));
    assert!(is_abort_error(true, "other"));
    assert!(!is_abort_error(false, "timeout"));
}

#[test]
fn tushare_answers_report_their_error() {
    let ok = obj(vec![("code", json_u64(0))]);
    assert_eq!(answer_error(&ok, "unknown error"), None);
    let bad = obj(vec![("code", json_u64(40203)), ("msg", s("no permission"))]);
    assert_eq!(answer_error(&bad, "unknown error").unwrap(), "tushare error (code=40203): no permission");
    let none = obj(vec![]);
    assert_eq!(answer_error(&none, "unknown tushare error").unwrap(), "tushare error (code=-1): unknown tushare error");
}

#[test]
fn tushare_tables_keep_string_fields_and_array_rows() {
    let body = obj(vec![(
        "data",
        obj(vec![
            ("fields", Json::Array(vec![s("ts_code"), json_u64(1), s("close")])),
            ("items", Json::Array(vec![Json::Array(vec![s("600519.SH"), json_u64(1700)]), s("junk")])),
        ]),
    )]);
    let t = tushare_extract(body);
    assert_eq!(t.fields, vec!["ts_code".to_string(), "close".to_string()]);
    assert_eq!(t.rows.len(), 1);
    assert_eq!(t.rows[0][0].as_str(), Some("600519.SH"));
    let empty = tushare_extract(obj(vec![]));
    assert!(empty.fields.is_empty() && empty.rows.is_empty());
    assert_eq!(tushare_data(obj(vec![])).err().unwrap(), "missing data in tushare response");
}

#[test]
fn integer_cells_parse_like_std() {
    use_value_i64();
}

fn use_value_i64() {
    let v = |x: &str| gateway::get_a_share_industry_context::value_i64(Some(&s(x)));
    assert_eq!(v(" 42 "), Some(42));
    assert_eq!(v("+7"), Some(7));
    assert_eq!(v("-9223372036854775808"), Some(i64::MIN));
    assert_eq!(v("9223372036854775807"), Some(i64::MAX));
    assert_eq!(v("9223372036854775808"), None);
    assert_eq!(v("-"), None);
    assert_eq!(v("+"), None);
    assert_eq!(v(""), None);
    assert_eq!(v("12a"), None);
    assert_eq!(v("1.5"), None);
    assert_eq!(v("00012"), Some(12));
    assert_eq!(v("99999999999999999999999"), None);
}
