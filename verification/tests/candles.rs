use gateway::get_candlesticks::{
    a_share_heading, binance_heading, binance_symbol, binance_table_head, binance_url, chart_label,
    coingecko_base, coingecko_days, coingecko_heading, coingecko_ohlc_url, coingecko_search_url,
    keep_last, no_data_notice, preview_err, price_basis, same_day_runs, security_label,
    table_tail_note, tushare_date_fmt, yahoo_heading, yahoo_range, yahoo_table_head, yahoo_url,
    Adjustment, Interval,
};
use gateway::json::Json;

fn obj(members: Vec<(&str, Json)>) -> Json {
    Json::Object(members.into_iter().map(|(k, v)| (k.to_string(), v)).collect())
}

fn s(x: &str) -> Json {
    Json::String(x.to_string())
}

#[test]
fn yahoo_range_covers_the_limit() {
    assert_eq!(yahoo_range(Interval::Minute15, 500), "60d");
    assert_eq!(yahoo_range(Interval::Day, 60), "3mo");
    assert_eq!(yahoo_range(Interval::Day, 61), "6mo");
    assert_eq!(yahoo_range(Interval::Week, 130), "6mo");
    assert_eq!(yahoo_range(Interval::Month, 131), "1y");
}

#[test]
fn yahoo_url_names_ticker_interval_and_range() {
    assert_eq!(
        yahoo_url("AAPL", Interval::Week, 30),
        "https://query1.finance.yahoo.com/v8/finance/chart/AAPL?interval=1wk&range=3mo"
    );
}

#[test]
fn binance_symbols_are_upper_cased_and_quoted() {
    assert_eq!(binance_symbol("sol"), "SOLUSDT");
    assert_eq!(binance_symbol("btc"), "BTC");
    assert_eq!(binance_symbol("ethbtc"), "ETHBTC");
    assert_eq!(binance_symbol("SOLUSDT"), "SOLUSDT");
    assert_eq!(binance_symbol("cakebnb"), "CAKEBNB");
    assert_eq!(
        binance_url("BTCUSDT", Interval::Month, 12),
        "https://api.binance.com/api/v3/klines?symbol=BTCUSDT&interval=1M&limit=12"
    );
}

#[test]
fn coin_base_drops_trailing_quotes() {
    assert_eq!(coingecko_base("pepeusdt"), "PEPE");
    assert_eq!(coingecko_base("wbtc"), "W");
    assert_eq!(coingecko_base("ARBUSDTUSDT"), "ARB");
    assert_eq!(coingecko_base("ethbtc"), "");
    assert_eq!(coingecko_search_url("PEPE"), "https://api.coingecko.com/api/v3/search?query=PEPE");
}

#[test]
fn coin_days_follow_the_interval() {
    assert_eq!(coingecko_days(Interval::Minute15, 30), "2");
    assert_eq!(coingecko_days(Interval::Day, 30), "90");
    assert_eq!(coingecko_days(Interval::Day, 150), "150");
    assert_eq!(coingecko_days(Interval::Week, 10), "90");
    assert_eq!(coingecko_days(Interval::Week, 20), "140");
    assert_eq!(coingecko_days(Interval::Month, 30), "max");
    assert_eq!(
        coingecko_ohlc_url("pepe", "90"),
        "https://api.coingecko.com/api/v3/coins/pepe/ohlc?vs_currency=usd&days=90"
    );
}

#[test]
fn dates_and_error_previews() {
    assert_eq!(tushare_date_fmt("20240105"), "2024-01-05");
    assert_eq!(tushare_date_fmt("2024-01-05"), "2024-01-05");
    assert_eq!(preview_err("  short error  "), "short error");
    let long = "x".repeat(130);
    let p = preview_err(&long);
    assert_eq!(p.chars().count(), 121);
    assert!(p.ends_with('…'));
}

#[test]
fn a_share_heading_and_notes() {
    assert_eq!(security_label(Some("贵州茅台"), "600519.SH"), "贵州茅台（600519.SH）");
    assert_eq!(security_label(None, "600519.SH"), "600519.SH");
    assert_eq!(
        a_share_heading("贵州茅台（600519.SH）", Interval::Week, "前复权", 30),
        "## 贵州茅台（600519.SH） · 周线 · 前复权 (30)\n\n"
    );
    assert!(no_data_notice("000001.SZ").starts_with("[get_candlesticks: no data returned for 000001.SZ from Tushare."));
    assert_eq!(table_tail_note(40, 40), "");
    assert_eq!(table_tail_note(120, 40), "\n_表格仅保留最近 40 根，完整 K 线由前端卡片按需加载。_");
}

#[test]
fn price_basis_names_each_adjustment_outcome() {
    assert_eq!(price_basis(&Adjustment::Unadjusted), ("不复权", String::new()));
    assert_eq!(price_basis(&Adjustment::Applied), ("前复权", String::new()));
    let (basis, note) = price_basis(&Adjustment::Unmatched);
    assert_eq!(basis, "不复权（前复权不可用）");
    assert!(note.contains("未匹配到足够 adj_factor"));
    let (basis, note) = price_basis(&Adjustment::Failed("  timeout  ".to_string()));
    assert_eq!(basis, "不复权（前复权失败）");
    assert!(note.ends_with("错误: timeout_"));
}

#[test]
fn keep_last_drops_the_oldest() {
    assert_eq!(keep_last(vec![1, 2, 3, 4], 2), vec![3, 4]);
    assert_eq!(keep_last(vec![1, 2], 5), vec![1, 2]);
    assert_eq!(keep_last(vec![1, 2, 3], 0), Vec::<i32>::new());
}

#[test]
fn chart_label_prefers_short_name() {
    let meta = obj(vec![("symbol", s("AAPL")), ("shortName", s(" Apple Inc. ")), ("longName", s("Apple"))]);
    let result = obj(vec![("meta", meta)]);
    assert_eq!(chart_label(&result, "aapl"), "Apple Inc.（AAPL）");
    let long_only = obj(vec![("meta", obj(vec![("longName", s("Tesla, Inc."))]))]);
    assert_eq!(chart_label(&long_only, "TSLA"), "Tesla, Inc.（TSLA）");
    let blank = obj(vec![("meta", obj(vec![("symbol", s("MSFT")), ("shortName", s("  "))]))]);
    assert_eq!(chart_label(&blank, "msft"), "MSFT");
    assert_eq!(chart_label(&Json::Null, "QQQ"), "QQQ");
}

#[test]
fn price_table_headings() {
    assert_eq!(yahoo_heading("AAPL", Interval::Day, true, 30), "## AAPL · Daily · Adj (30)\n\n");
    assert_eq!(yahoo_heading("AAPL", Interval::Minute15, false, 8), "## AAPL · 15m · Raw (8)\n\n");
    assert!(yahoo_table_head(Interval::Minute15).starts_with("| Date              | Open"));
    assert!(yahoo_table_head(Interval::Day).contains("|-----------|---------|"));
    assert!(binance_table_head(Interval::Day).starts_with("| Date        | Open        |"));
    assert_eq!(binance_heading("ETHBTC", Interval::Day, 30), "## /USDT · Daily · Binance (30)\n\n");
    assert_eq!(binance_heading("SOLUSDT", Interval::Week, 12), "## SOL/USDT · Weekly · Binance (12)\n\n");
    assert_eq!(coingecko_heading("PEPE", Interval::Month, 6), "## PEPE/USD · Monthly · CoinGecko (6)\n\n");
}

#[test]
fn same_day_runs_group_neighbouring_dates() {
    let dates: Vec<String> = ["2024-01-01", "2024-01-01", "2024-01-02", "2024-01-03", "2024-01-03", "2024-01-03"]
        .iter()
        .map(|d| d.to_string())
        .collect();
    assert_eq!(same_day_runs(&dates), vec![(0, 1), (2, 2), (3, 5)]);
    assert_eq!(same_day_runs(&Vec::new()), Vec::<(usize, usize)>::new());
}
