use gateway::get_financials::{
    append_ashare_income_metadata, fmp_http_error, fmp_str, fmp_url, metric_row_for, tushare_fetch_limit,
    us_heading, us_no_data, us_source_line, us_statements, UsStatement,
};
use gateway::json::{json_u64, Json};

#[test]
fn fmp_http_402_mentions_provider_access_quota() {
    let msg = fmp_http_error(402, "{\"Error Message\":\"Plan limit\"}");
    assert!(msg.contains("access/quota"));
    assert!(msg.contains("Plan limit"));
}

#[test]
fn ashare_income_metadata_names_financial_statement_fields() {
    let mut out = String::new();
    append_ashare_income_metadata(&mut out);
    assert!(out.contains("total_revenue=营业总收入"));
    assert!(out.contains("revenue=营业收入"));
    assert!(out.contains("n_income=净利润"));
    assert!(out.contains("n_income_attr_p=归母净利润"));
    assert!(out.contains("不得把营业收入、营业总收入、净利润、归母净利润直接混用"));
}

#[test]
fn fmp_http_error_other_status_names_the_status() {
    let msg = fmp_http_error(500, "boom");
    assert!(msg.contains("500"));
    assert!(!msg.contains("access/quota"));
}

#[test]
fn tushare_fetch_limit_triples_the_periods() {
    assert_eq!(tushare_fetch_limit(4), 12);
}

#[test]
fn fmp_http_error_cuts_a_long_body() {
    let body = "x".repeat(300);
    let msg = fmp_http_error(500, &body);
    assert_eq!(msg, format!("FMP HTTP 500: provider request failed. Provider response: {}…", "x".repeat(180)));
}

#[test]
fn us_report_types_name_their_statements() {
    assert!(matches!(us_statements("income").as_deref(), Ok([UsStatement::Income])));
    let all = us_statements("all").unwrap();
    assert_eq!(all.len(), 4);
    assert!(all[1] == UsStatement::Balance && all[3] == UsStatement::Ratios);
    assert_eq!(us_statements("dividend").err().unwrap(), "unknown report_type: dividend");
}

#[test]
fn us_requests_and_headings() {
    assert_eq!(
        fmp_url(UsStatement::Cashflow.endpoint(), "AAPL", 4, "k"),
        "https://financialmodelingprep.com/stable/cash-flow-statement?symbol=AAPL&limit=4&apikey=k"
    );
    assert_eq!(us_heading(UsStatement::Ratios, "AAPL", 8), "## AAPL · Key Ratios (last 8 periods)\n\n");
    assert_eq!(us_no_data(UsStatement::Balance, "AAPL"), "[get_financials: no balance sheet data for AAPL]");
    assert_eq!(us_source_line(UsStatement::Income), "\n_Source: Financial Modeling Prep (income-statement)_");
}

#[test]
fn provider_rows_read_by_date() {
    let row = |d: &str| Json::Object(vec![("date".to_string(), Json::String(d.to_string()))]);
    let metrics = vec![row("2023-12-31"), row("2024-12-31"), row("2024-12-31")];
    assert_eq!(metric_row_for(&metrics, "2024-12-31"), Some(1));
    assert_eq!(metric_row_for(&metrics, "2022-12-31"), None);
    let r = Json::Object(vec![("n".to_string(), json_u64(7)), ("z".to_string(), Json::Null)]);
    assert_eq!(fmp_str(&r, "n"), "7");
    assert_eq!(fmp_str(&r, "z"), "");
    assert_eq!(fmp_str(&r, "missing"), "");
}
