use gateway::crypto::{
    binance_urls, coin_detail_url, crypto_request, funding_request, okx_urls, top_coins_url, CryptoMode, Exchange,
};
use gateway::data_provider_tokens::{resolve_tushare_token, DISABLED_MESSAGE, NOT_CONFIGURED_MESSAGE};
use gateway::json::{json_u64, Json};
use gateway::sec_filing::{
    company_entries, filings_answer_text, find_cik, list_filings, sec_request, submissions_url, to_ascii_upper,
    RecentFilings,
};

fn obj(members: Vec<(&str, Json)>) -> Json {
    Json::Object(members.into_iter().map(|(k, v)| (k.to_string(), v)).collect())
}

fn s(x: &str) -> Json {
    Json::String(x.to_string())
}

fn strings(v: &[&str]) -> Vec<String> {
    v.iter().map(|x| x.to_string()).collect()
}

#[test]
fn sec_request_reads_ticker_filter_and_limit() {
    assert_eq!(sec_request(&obj(vec![])).err().unwrap(), "missing 'ticker' argument");
    let r = sec_request(&obj(vec![("ticker", s(" nvda ")), ("limit", json_u64(100))])).unwrap();
    assert_eq!(r.ticker, "nvda");
    assert_eq!(r.limit, 30);
    assert!(r.form_filter.is_none());
    let r = sec_request(&obj(vec![("ticker", s("A")), ("form_type", s("10-K"))])).unwrap();
    assert_eq!(r.limit, 8);
    assert_eq!(r.form_filter.as_deref(), Some("10-K"));
}

#[test]
fn ticker_lookup_uses_upper_case_and_last_entry() {
    let raw = obj(vec![
        ("0", obj(vec![("cik_str", json_u64(320193)), ("ticker", s("aapl"))])),
        ("1", obj(vec![("ticker", s("NOCIK"))])),
        ("2", obj(vec![("cik_str", json_u64(1045810)), ("ticker", s("NVDA"))])),
    ]);
    let entries = company_entries(&raw);
    assert_eq!(entries.len(), 2);
    assert_eq!(find_cik(&entries, "Aapl").unwrap(), 320193);
    assert_eq!(find_cik(&entries, "nvda").unwrap(), 1045810);
    assert_eq!(find_cik(&entries, "zzz").unwrap_err(), "unknown ticker `zzz` (not in SEC company list)");
    assert_eq!(to_ascii_upper("brk.b é"), "BRK.B é");
}

#[test]
fn submissions_url_pads_cik() {
    assert_eq!(submissions_url(320193), "https://data.sec.gov/submissions/CIK0000320193.json");
    assert_eq!(submissions_url(12345678901), "https://data.sec.gov/submissions/CIK12345678901.json");
}

#[test]
fn filings_filter_limit_and_answer() {
    let recent = RecentFilings {
        accession_number: strings(&["0001-23-456", "0001-23-457", "0001-23-458"]),
        filing_date: strings(&["2026-04-01", "2026-03-01", "2026-02-01"]),
        report_date: strings(&["2026-03-31"]),
        form: strings(&["10-Q", "8-K", "10-q"]),
        primary_document: strings(&["a.htm", "b.htm", "c.htm"]),
        primary_doc_description: strings(&[]),
    };
    let all = list_filings(7, &recent, &None, 2);
    assert_eq!(all.len(), 2);
    assert_eq!(all[0].primary_doc_url, "https://www.sec.gov/Archives/edgar/data/7/000123456/a.htm");
    assert_eq!(all[0].report_period, "2026-03-31");
    assert_eq!(all[1].report_period, "");
    let q = list_filings(7, &recent, &Some("10-Q".to_string()), 8);
    assert_eq!(q.len(), 2);
    assert_eq!(q[1].form, "10-q");
    let text = filings_answer_text("nvda", &Some("TEST CORP".to_string()), 7, &None, &q[..1].iter().map(|f| gateway::sec_filing::Filing {
        form: f.form.clone(),
        filed: f.filed.clone(),
        report_period: f.report_period.clone(),
        accession: f.accession.clone(),
        primary_doc_url: f.primary_doc_url.clone(),
        description: f.description.clone(),
    }).collect());
    let v: serde_json::Value = serde_json::from_str(&text).unwrap();
    assert_eq!(v["ticker"], "NVDA");
    assert_eq!(v["cik"], 7);
    assert_eq!(v["company_name"], "TEST CORP");
    assert!(v["form_filter"].is_null());
    assert_eq!(v["filings"][0]["form"], "10-Q");
    assert!(text.starts_with("{\"cik\":7,\"company_name\":\"TEST CORP\",\"filings\":[{\"accession\":"));
}

#[test]
fn crypto_request_modes() {
    assert_eq!(crypto_request(&obj(vec![])).err().unwrap(), "missing 'mode' argument");
    let r = crypto_request(&obj(vec![("mode", s("top_coins"))])).unwrap();
    assert!(matches!(r.mode, CryptoMode::TopCoins));
    assert_eq!(r.vs_currency, "usd");
    assert_eq!(r.limit, 20);
    assert_eq!(
        crypto_request(&obj(vec![("mode", s("coin_detail"))])).err().unwrap(),
        "'coin_id' is required for coin_detail mode"
    );
    assert_eq!(
        crypto_request(&obj(vec![("mode", s("x"))])).err().unwrap(),
        "unknown mode 'x' — use 'global', 'top_coins', or 'coin_detail'"
    );
    assert_eq!(
        top_coins_url("usd", 99),
        "https://api.coingecko.com/api/v3/coins/markets?vs_currency=usd&order=market_cap_desc&per_page=50&page=1&sparkline=false"
    );
    assert!(coin_detail_url("bitcoin").starts_with("https://api.coingecko.com/api/v3/coins/bitcoin?localization=false"));
}

#[test]
fn funding_request_normalises_symbol() {
    assert_eq!(funding_request(&obj(vec![])).err().unwrap(), "missing 'symbol' argument");
    let r = funding_request(&obj(vec![("symbol", s(" btcusdt ")), ("limit", json_u64(500))])).unwrap();
    assert_eq!(r.symbol, "BTCUSDT");
    assert_eq!(r.limit, 100);
    assert!(matches!(r.exchange, Exchange::Binance));
    let r = funding_request(&obj(vec![("symbol", s("BTC-USDT-SWAP")), ("exchange", s("okx"))])).unwrap();
    assert!(matches!(r.exchange, Exchange::Okx));
    assert_eq!(r.limit, 10);
    let (f, oi, ls) = binance_urls("BTCUSDT", 10);
    assert_eq!(f, "https://fapi.binance.com/fapi/v1/fundingRate?symbol=BTCUSDT&limit=10");
    assert_eq!(oi, "https://fapi.binance.com/fapi/v1/openInterest?symbol=BTCUSDT");
    assert!(ls.ends_with("symbol=BTCUSDT&period=1h&limit=8"));
    assert_eq!(okx_urls("X").0, "https://www.okx.com/api/v5/public/funding-rate?instId=X");
}

#[test]
fn vault_token_wins() {
    let r = resolve_tushare_token(Some(true), Some("vault-token".to_string()), Some("env".to_string()));
    assert_eq!(r.unwrap(), "vault-token");
    assert_eq!(resolve_tushare_token(None, None, Some("env".to_string())).unwrap(), "env");
}

#[test]
fn disabled_provider_blocks_fallback() {
    let err = resolve_tushare_token(Some(false), Some("vault-token".to_string()), Some("env".to_string())).unwrap_err();
    assert!(err.contains("disabled"));
    assert_eq!(err, DISABLED_MESSAGE);
    assert_eq!(resolve_tushare_token(Some(true), None, Some("env".to_string())).unwrap_err(), NOT_CONFIGURED_MESSAGE);
    assert_eq!(resolve_tushare_token(None, None, None).unwrap_err(), NOT_CONFIGURED_MESSAGE);
}

#[test]
fn open_interest_unit_drops_trailing_quote_letters() {
    use_unit();
}

fn use_unit() {
    assert_eq!(gateway::crypto::open_interest_unit("XRPUSD"), "XRPUS");
    assert_eq!(gateway::crypto::open_interest_unit("SOLUSDT"), "SOLUSDT");
    assert_eq!(gateway::crypto::open_interest_unit("1000PEPEUSDX"), "1000PEPEUS");
    assert_eq!(gateway::crypto::open_interest_unit("ABC123"), "ABC123");
    assert_eq!(gateway::crypto::open_interest_unit("dogeusd"), "dogeusd");
    assert_eq!(gateway::crypto::open_interest_unit("AAA"), "");
    assert_eq!(gateway::crypto::open_interest_unit("SÄRPÜ"), "S");
    assert_eq!(gateway::crypto::utc_minutes(0, "%Y-%m-%d %H:%M"), "1970-01-01 00:00");
    assert_eq!(gateway::crypto::utc_minutes(86_400_000, "%Y-%m-%d %H:%M UTC"), "1970-01-02 00:00 UTC");
    assert_eq!(gateway::crypto::utc_minutes(i64::MAX, "%Y-%m-%d %H:%M"), "-");
}
