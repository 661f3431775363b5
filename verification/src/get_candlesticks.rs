//! Candlestick requests: the interval vocabulary of each price source,
//! date labels, and error previews.
use vstd::prelude::*;

use crate::json::Json;
use crate::text::{
    chars_of, decimal, ends_with, ends_with_chars, fmt_date, fmt_date_str, fmt_u64, owned,
    push_str, str_ends_with, str_eq, string_of, to_upper, trim, trim_str, upper_case, views,
};

verus! {

/// A candle interval.
#[derive(PartialEq, Eq, Structural, Clone, Copy)]
pub enum Interval {
    Minute15,
    Day,
    Week,
    Month,
}

/// The interval code of the US price source.
pub open spec fn yahoo_code(i: Interval) -> Seq<char> {
    match i {
        Interval::Minute15 => "15m"@,
        Interval::Day => "1d"@,
        Interval::Week => "1wk"@,
        Interval::Month => "1mo"@,
    }
}

/// The interval code of the crypto exchange.
pub open spec fn binance_code(i: Interval) -> Seq<char> {
    match i {
        Interval::Minute15 => "15m"@,
        Interval::Day => "1d"@,
        Interval::Week => "1w"@,
        Interval::Month => "1M"@,
    }
}

/// The English label of an interval.
pub open spec fn label_of(i: Interval) -> Seq<char> {
    match i {
        Interval::Minute15 => "15m"@,
        Interval::Day => "Daily"@,
        Interval::Week => "Weekly"@,
        Interval::Month => "Monthly"@,
    }
}

/// The Chinese label of an interval.
pub open spec fn label_cn_of(i: Interval) -> Seq<char> {
    match i {
        Interval::Minute15 => "15分钟"@,
        Interval::Day => "日线"@,
        Interval::Week => "周线"@,
        Interval::Month => "月线"@,
    }
}

impl Interval {
    /// The structured-source api of the interval.
    pub fn tushare_api(&self) -> (r: &'static str)
        ensures
            r@ == match *self {
                Interval::Minute15 => "stk_mins"@,
                Interval::Day => "daily"@,
                Interval::Week => "weekly"@,
                Interval::Month => "monthly"@,
            },
    {
        match self {
            Interval::Minute15 => "stk_mins",
            Interval::Day => "daily",
            Interval::Week => "weekly",
            Interval::Month => "monthly",
        }
    }

    /// The interval code of the US price source.
    pub fn yahoo_interval(&self) -> (r: &'static str)
        ensures
            r@ == yahoo_code(*self),
    {
        match self {
            Interval::Minute15 => "15m",
            Interval::Day => "1d",
            Interval::Week => "1wk",
            Interval::Month => "1mo",
        }
    }

    /// The interval code of the crypto exchange.
    pub fn binance_interval(&self) -> (r: &'static str)
        ensures
            r@ == binance_code(*self),
    {
        match self {
            Interval::Minute15 => "15m",
            Interval::Day => "1d",
            Interval::Week => "1w",
            Interval::Month => "1M",
        }
    }

    /// The English label of the interval.
    pub fn label(&self) -> (r: &'static str)
        ensures
            r@ == label_of(*self),
    {
        match self {
            Interval::Minute15 => "15m",
            Interval::Day => "Daily",
            Interval::Week => "Weekly",
            Interval::Month => "Monthly",
        }
    }

    /// The Chinese label of the interval.
    pub fn label_cn(&self) -> (r: &'static str)
        ensures
            r@ == label_cn_of(*self),
    {
        match self {
            Interval::Minute15 => "15分钟",
            Interval::Day => "日线",
            Interval::Week => "周线",
            Interval::Month => "月线",
        }
    }
}

/// `YYYYMMDD` rendered as `YYYY-MM-DD`; anything else unchanged.
pub fn tushare_date_fmt(s: &str) -> (r: String)
    ensures
        r@ == fmt_date(s@),
{
    fmt_date_str(s)
}

/// The largest character boundary of `b` at or below `n`.
pub open spec fn boundary_at_most(b: Seq<u8>, n: int) -> int
    decreases n,
{
    if n <= 0 || vstd::utf8::is_char_boundary(b, n) {
        if n <= 0 {
            0
        } else {
            n
        }
    } else {
        boundary_at_most(b, n - 1)
    }
}

/// An error message trimmed and, when longer than 120 bytes, cut at the
/// last character boundary within them, with `…` appended.
pub open spec fn preview_text(s: Seq<char>) -> Seq<char> {
    let t = trim(s);
    let b = vstd::utf8::encode_utf8(t);
    if b.len() <= 120 {
        t
    } else {
        vstd::utf8::decode_utf8(b.subrange(0, boundary_at_most(b, 120))) + seq!['…']
    }
}

/// `preview_text` of an error message.
pub fn preview_err(s: &str) -> (r: String)
    ensures
        r@ == preview_text(s@),
{
    let t = trim_str(s);
    let ts = t.as_str();
    let bytes = ts.as_bytes();
    if bytes.len() <= 120 {
        return t;
    }
    proof {
        vstd::utf8::encode_utf8_valid_utf8(ts@);
    }
    let mut end: usize = 120;
    while !ts.is_char_boundary(end)
        invariant
            0 <= end <= 120,
            end < vstd::utf8::encode_utf8(ts@).len(),
            vstd::utf8::valid_utf8(vstd::utf8::encode_utf8(ts@)),
            boundary_at_most(vstd::utf8::encode_utf8(ts@), 120) == boundary_at_most(vstd::utf8::encode_utf8(ts@), end as int),
        decreases end,
    {
        end = end - 1;
    }
    let (head, _) = ts.split_at(end);
    proof {
        vstd::utf8::encode_utf8_decode_utf8(head@);
        reveal_strlit("…");
    }
    let mut out = head.to_owned();
    push_str(&mut out, "…");
    out
}

/// Bars returned when the call names no limit.
pub const DEFAULT_LIMIT: usize = 30;

/// Most bars one call returns.
pub const MAX_LIMIT: usize = 200;

/// The bar count of a call: its limit kept within `1..=200`, else thirty.
pub fn candle_limit(limit: Option<usize>) -> (r: usize)
    ensures
        r == match limit {
            Some(n) => if n < 1 {
                1
            } else if n > MAX_LIMIT {
                MAX_LIMIT
            } else {
                n
            },
            None => DEFAULT_LIMIT,
        },
{
    match limit {
        Some(n) => if n < 1 {
            1
        } else if n > MAX_LIMIT {
            MAX_LIMIT
        } else {
            n
        },
        None => DEFAULT_LIMIT,
    }
}

/// What an A-share call for 15-minute bars is told instead of bars.
pub const A_SHARE_15M_NOTICE: &'static str = "[get_candlesticks: A-share 15m candles are not available through the current primary K-line provider. Use Tushare daily/weekly/monthly for historical K-lines, or get_a_share_market_snapshot freshness=realtime/both for the current-session quote snapshot.]";

/// The notice an A-share call gets in place of bars: only for 15-minute
/// bars, which the provider does not serve.
pub fn a_share_interval_notice(interval: Interval) -> (r: Option<&'static str>)
    ensures
        interval == Interval::Minute15 ==> r == Some(A_SHARE_15M_NOTICE),
        interval != Interval::Minute15 ==> r is None,
{
    match interval {
        Interval::Minute15 => Some(A_SHARE_15M_NOTICE),
        _ => None,
    }
}

// ---------------------------------------------------------------------
// Request addresses of the three price sources
// ---------------------------------------------------------------------

/// The chart endpoint of the US price source.
pub const YAHOO_BASE: &'static str = "https://query1.finance.yahoo.com/v8/finance/chart";

/// The kline endpoint of the crypto exchange.
pub const BINANCE_BASE: &'static str = "https://api.binance.com/api/v3/klines";

/// The coin search endpoint of the crypto fallback source.
pub const COINGECKO_SEARCH: &'static str = "https://api.coingecko.com/api/v3/search";

/// The history span asked of the US price source: sixty days of 15-minute
/// bars; otherwise three months, six months or a year, the least that
/// covers `limit` bars.
pub open spec fn yahoo_range_of(interval: Interval, limit: int) -> Seq<char> {
    if interval == Interval::Minute15 {
        "60d"@
    } else if limit <= 60 {
        "3mo"@
    } else if limit <= 130 {
        "6mo"@
    } else {
        "1y"@
    }
}

/// `yahoo_range_of` as a string.
pub fn yahoo_range(interval: Interval, limit: usize) -> (r: &'static str)
    ensures
        r@ == yahoo_range_of(interval, limit as int),
{
    match interval {
        Interval::Minute15 => "60d",
        _ => if limit <= 60 {
            "3mo"
        } else if limit <= 130 {
            "6mo"
        } else {
            "1y"
        },
    }
}

/// The chart address of `ticker` at the US price source.
pub open spec fn yahoo_url_of(ticker: Seq<char>, interval: Interval, limit: int) -> Seq<char> {
    YAHOO_BASE@ + "/"@ + ticker + "?interval="@ + yahoo_code(interval) + "&range="@
        + yahoo_range_of(interval, limit)
}

/// `yahoo_url_of` as a string.
pub fn yahoo_url(ticker: &str, interval: Interval, limit: usize) -> (r: String)
    ensures
        r@ == yahoo_url_of(ticker@, interval, limit as int),
{
    let mut url = owned(YAHOO_BASE);
    push_str(&mut url, "/");
    push_str(&mut url, ticker);
    push_str(&mut url, "?interval=");
    push_str(&mut url, interval.yahoo_interval());
    push_str(&mut url, "&range=");
    push_str(&mut url, yahoo_range(interval, limit));
    url
}

/// The symbol already names its quote currency.
pub open spec fn has_quote_suffix(s: Seq<char>) -> bool {
    ends_with(s, "USDT"@) || ends_with(s, "BTC"@) || ends_with(s, "ETH"@) || ends_with(s, "BNB"@)
}

/// The exchange symbol of an upper-cased ticker: kept when it names its
/// quote currency, else quoted in USDT.
pub open spec fn exchange_symbol_of(raw: Seq<char>) -> Seq<char> {
    if has_quote_suffix(raw) {
        raw
    } else {
        raw + "USDT"@
    }
}

/// The exchange symbol of a crypto ticker, upper-cased first.
pub fn binance_symbol(ticker: &str) -> (r: String)
    ensures
        r@ == exchange_symbol_of(upper_case(ticker@)),
{
    let raw = to_upper(ticker);
    let quoted = str_ends_with(raw.as_str(), "USDT") || str_ends_with(raw.as_str(), "BTC")
        || str_ends_with(raw.as_str(), "ETH") || str_ends_with(raw.as_str(), "BNB");
    if quoted {
        raw
    } else {
        let mut out = raw;
        push_str(&mut out, "USDT");
        out
    }
}

/// The kline address of `symbol` at the crypto exchange.
pub open spec fn binance_url_of(symbol: Seq<char>, interval: Interval, limit: nat) -> Seq<char> {
    BINANCE_BASE@ + "?symbol="@ + symbol + "&interval="@ + binance_code(interval) + "&limit="@
        + decimal(limit)
}

/// `binance_url_of` as a string.
pub fn binance_url(symbol: &str, interval: Interval, limit: usize) -> (r: String)
    ensures
        r@ == binance_url_of(symbol@, interval, limit as nat),
{
    let mut url = owned(BINANCE_BASE);
    push_str(&mut url, "?symbol=");
    push_str(&mut url, symbol);
    push_str(&mut url, "&interval=");
    push_str(&mut url, interval.binance_interval());
    push_str(&mut url, "&limit=");
    let n = fmt_u64(limit as u64);
    push_str(&mut url, n.as_str());
    url
}

/// `s` with every trailing repetition of `suffix` removed
/// (`str::trim_end_matches`).
pub open spec fn strip_suffixes(s: Seq<char>, suffix: Seq<char>) -> Seq<char>
    decreases s.len(),
{
    if suffix.len() > 0 && ends_with(s, suffix) {
        strip_suffixes(s.subrange(0, s.len() - suffix.len()), suffix)
    } else {
        s
    }
}

/// `strip_suffixes` on characters.
fn strip_suffixes_chars(s: Vec<char>, suffix: &[char]) -> (r: Vec<char>)
    ensures
        r@ == strip_suffixes(s@, suffix@),
{
    let mut v: Vec<char> = s;
    if suffix.len() == 0 {
        return v;
    }
    while ends_with_chars(v.as_slice(), suffix)
        invariant
            suffix.len() > 0,
            strip_suffixes(v@, suffix@) == strip_suffixes(s@, suffix@),
        decreases v.len(),
    {
        let n = v.len() - suffix.len();
        v.truncate(n);
    }
    v
}

/// The coin symbol the fallback source is searched for: the upper-cased
/// ticker without its trailing `USDT`s, then `BTC`s, then `ETH`s.
pub open spec fn coin_base_of(ticker: Seq<char>) -> Seq<char> {
    strip_suffixes(
        strip_suffixes(strip_suffixes(upper_case(ticker), "USDT"@), "BTC"@),
        "ETH"@,
    )
}

/// `coin_base_of` as a string.
pub fn coingecko_base(ticker: &str) -> (r: String)
    ensures
        r@ == coin_base_of(ticker@),
{
    let up = to_upper(ticker);
    let u = chars_of(up.as_str());
    let usdt = chars_of("USDT");
    let btc = chars_of("BTC");
    let eth = chars_of("ETH");
    let a = strip_suffixes_chars(u, usdt.as_slice());
    let b = strip_suffixes_chars(a, btc.as_slice());
    let c = strip_suffixes_chars(b, eth.as_slice());
    string_of(c.as_slice())
}

/// The coin search address for `base`.
pub fn coingecko_search_url(base: &str) -> (r: String)
    ensures
        r@ == COINGECKO_SEARCH@ + "?query="@ + base@,
{
    let mut url = owned(COINGECKO_SEARCH);
    push_str(&mut url, "?query=");
    push_str(&mut url, base);
    url
}

/// The history span, in days, asked of the fallback source: two days of
/// 15-minute bars, at least ninety days of daily or weekly bars, and all
/// of the history for monthly bars.
pub open spec fn coin_days_of(interval: Interval, limit: int) -> Seq<char> {
    match interval {
        Interval::Minute15 => "2"@,
        Interval::Day => decimal(if limit < 90 { 90 } else { limit as nat }),
        Interval::Week => decimal(if limit * 7 < 90 { 90 } else { (limit * 7) as nat }),
        Interval::Month => "max"@,
    }
}

/// `coin_days_of` as a string.
pub fn coingecko_days(interval: Interval, limit: usize) -> (r: String)
    requires
        limit * 7 <= usize::MAX,
    ensures
        r@ == coin_days_of(interval, limit as int),
{
    match interval {
        Interval::Minute15 => owned("2"),
        Interval::Day => {
            let d: usize = if limit < 90 { 90 } else { limit };
            fmt_u64(d as u64)
        },
        Interval::Week => {
            let w: usize = limit * 7;
            let d: usize = if w < 90 { 90 } else { w };
            fmt_u64(d as u64)
        },
        Interval::Month => owned("max"),
    }
}

/// The daily-candle address of coin `id` at the fallback source.
pub fn coingecko_ohlc_url(id: &str, days: &str) -> (r: String)
    ensures
        r@ == "https://api.coingecko.com/api/v3/coins/"@ + id@ + "/ohlc?vs_currency=usd&days="@
            + days@,
{
    let mut url = owned("https://api.coingecko.com/api/v3/coins/");
    push_str(&mut url, id);
    push_str(&mut url, "/ohlc?vs_currency=usd&days=");
    push_str(&mut url, days);
    url
}

// ---------------------------------------------------------------------
// Reply headings and notes
// ---------------------------------------------------------------------

/// `name（ticker）` where the security's name is known, else the ticker.
pub open spec fn security_label_of(name: Option<Seq<char>>, ticker: Seq<char>) -> Seq<char> {
    match name {
        Some(n) => n + "（"@ + ticker + "）"@,
        None => ticker,
    }
}

/// `security_label_of` as a string.
pub fn security_label(name: Option<&str>, ticker: &str) -> (r: String)
    ensures
        r@ == security_label_of(
            match name {
                Some(n) => Some(n@),
                None => None,
            },
            ticker@,
        ),
{
    match name {
        Some(n) => {
            let mut out = owned(n);
            push_str(&mut out, "（");
            push_str(&mut out, ticker);
            push_str(&mut out, "）");
            out
        },
        None => owned(ticker),
    }
}

/// What became of a requested front adjustment.
pub enum Adjustment {
    /// None was requested.
    Unadjusted,
    /// The factors covered every bar and were applied.
    Applied,
    /// The factors did not cover the bars; prices are unadjusted.
    Unmatched,
    /// The factors could not be fetched, for the reason given.
    Failed(String),
}

/// The price basis named in the heading.
pub open spec fn basis_of(a: Adjustment) -> Seq<char> {
    match a {
        Adjustment::Unadjusted => "不复权"@,
        Adjustment::Applied => "前复权"@,
        Adjustment::Unmatched => "不复权（前复权不可用）"@,
        Adjustment::Failed(_) => "不复权（前复权失败）"@,
    }
}

/// The note that explains an adjustment that did not happen.
pub open spec fn basis_note_of(a: Adjustment) -> Seq<char> {
    match a {
        Adjustment::Unmatched => "\n_复权说明: 已请求前复权，但未匹配到足够 adj_factor；本次返回不复权价格。_"@,
        Adjustment::Failed(e) => "\n_复权说明: 已请求前复权，但 adj_factor 获取失败；本次返回不复权价格。错误: "@
            + preview_text(e@) + "_"@,
        _ => ""@,
    }
}

/// The price basis and its note.
pub fn price_basis(a: &Adjustment) -> (r: (&'static str, String))
    ensures
        r.0@ == basis_of(*a),
        r.1@ == basis_note_of(*a),
{
    match a {
        Adjustment::Unadjusted => ("不复权", owned("")),
        Adjustment::Applied => ("前复权", owned("")),
        Adjustment::Unmatched => (
            "不复权（前复权不可用）",
            owned("\n_复权说明: 已请求前复权，但未匹配到足够 adj_factor；本次返回不复权价格。_"),
        ),
        Adjustment::Failed(e) => {
            let mut note = owned("\n_复权说明: 已请求前复权，但 adj_factor 获取失败；本次返回不复权价格。错误: ");
            let p = preview_err(e.as_str());
            push_str(&mut note, p.as_str());
            push_str(&mut note, "_");
            ("不复权（前复权失败）", note)
        },
    }
}

/// The heading of an A-share reply.
pub open spec fn a_share_heading_of(label: Seq<char>, interval: Interval, basis: Seq<char>, limit: nat) -> Seq<char> {
    "## "@ + label + " · "@ + label_cn_of(interval) + " · "@ + basis + " ("@ + decimal(limit) + ")\n\n"@
}

/// `a_share_heading_of` as a string.
pub fn a_share_heading(label: &str, interval: Interval, basis: &str, limit: usize) -> (r: String)
    ensures
        r@ == a_share_heading_of(label@, interval, basis@, limit as nat),
{
    let mut out = owned("## ");
    push_str(&mut out, label);
    push_str(&mut out, " · ");
    push_str(&mut out, interval.label_cn());
    push_str(&mut out, " · ");
    push_str(&mut out, basis);
    push_str(&mut out, " (");
    let n = fmt_u64(limit as u64);
    push_str(&mut out, n.as_str());
    push_str(&mut out, ")\n\n");
    out
}

/// The reply when the A-share source returns no bars for `ticker`.
pub open spec fn no_data_notice_of(ticker: Seq<char>) -> Seq<char> {
    "[get_candlesticks: no data returned for "@ + ticker
        + " from Tushare. Treat this as a valid empty/source-coverage gap for the selected market and interval, not proof of no trading; verify the symbol only if other evidence suggests a code mismatch.]"@
}

/// `no_data_notice_of` as a string.
pub fn no_data_notice(ticker: &str) -> (r: String)
    ensures
        r@ == no_data_notice_of(ticker@),
{
    let mut out = owned("[get_candlesticks: no data returned for ");
    push_str(&mut out, ticker);
    push_str(
        &mut out,
        " from Tushare. Treat this as a valid empty/source-coverage gap for the selected market and interval, not proof of no trading; verify the symbol only if other evidence suggests a code mismatch.]",
    );
    out
}

/// The note under an A-share table that shows `shown` of `total` bars:
/// present only when bars were left out.
pub open spec fn table_tail_note_of(total: nat, shown: nat) -> Seq<char> {
    if total > shown {
        "\n_表格仅保留最近 "@ + decimal(shown) + " 根，完整 K 线由前端卡片按需加载。_"@
    } else {
        ""@
    }
}

/// `table_tail_note_of` as a string.
pub fn table_tail_note(total: usize, shown: usize) -> (r: String)
    ensures
        r@ == table_tail_note_of(total as nat, shown as nat),
{
    if total > shown {
        let mut out = owned("\n_表格仅保留最近 ");
        let n = fmt_u64(shown as u64);
        push_str(&mut out, n.as_str());
        push_str(&mut out, " 根，完整 K 线由前端卡片按需加载。_");
        out
    } else {
        owned("")
    }
}

/// The last line of an A-share reply.
pub const A_SHARE_SOURCE_NOTE: &'static str = "\n_来源: 配置的 A 股日/周/月 K 线来源。同日收盘 K 线可能在收盘后一段时间才更新；当前盘中价请用 A 股行情快照工具的 realtime/both。_\n";

/// The last `limit` items of `v`, in order (all of them when there are
/// no more than `limit`).
pub fn keep_last<T>(v: Vec<T>, limit: usize) -> (r: Vec<T>)
    ensures
        v.len() <= limit ==> r@ == v@,
        v.len() > limit ==> r@ == v@.subrange(v.len() - limit, v.len() as int),
{
    if v.len() > limit {
        let mut w = v;
        let at = w.len() - limit;
        let tail = w.split_off(at);
        tail
    } else {
        v
    }
}

/// The member `key` of the `meta` object of a chart result.
pub open spec fn meta_field(result: Json, key: Seq<char>) -> Option<Json> {
    match result.get_spec("meta"@) {
        Some(m) => m.get_spec(key),
        None => None,
    }
}

/// The symbol a chart result names, else the ticker asked for.
pub open spec fn chart_symbol_of(result: Json, ticker: Seq<char>) -> Seq<char> {
    match meta_field(result, "symbol"@) {
        Some(j) => match j.str_spec() {
            Some(s) => s,
            None => ticker,
        },
        None => ticker,
    }
}

/// The security name of a chart result: its short name where the member
/// is present, else its long name, trimmed; nothing when blank.
pub open spec fn chart_name_of(result: Json) -> Option<Seq<char>> {
    let field = match meta_field(result, "shortName"@) {
        Some(j) => Some(j),
        None => meta_field(result, "longName"@),
    };
    match field {
        Some(j) => match j.str_spec() {
            Some(s) => if trim(s).len() > 0 {
                Some(trim(s))
            } else {
                None
            },
            None => None,
        },
        None => None,
    }
}

/// The member `key` of the `meta` object of a chart result.
fn meta_member<'a>(result: &'a Json, key: &str) -> (r: Option<&'a Json>)
    ensures
        match r {
            Some(j) => meta_field(*result, key@) == Some(*j),
            None => meta_field(*result, key@) is None,
        },
{
    match result.get("meta") {
        Some(m) => m.get(key),
        None => None,
    }
}

/// The label of a US chart: `name（symbol）`, else the symbol.
pub fn chart_label(result: &Json, ticker: &str) -> (r: String)
    ensures
        r@ == security_label_of(chart_name_of(*result), chart_symbol_of(*result, ticker@)),
{
    let symbol: &str = match meta_member(result, "symbol") {
        Some(j) => match j.as_str() {
            Some(s) => s,
            None => ticker,
        },
        None => ticker,
    };
    let field = match meta_member(result, "shortName") {
        Some(j) => Some(j),
        None => meta_member(result, "longName"),
    };
    let name: Option<String> = match field {
        Some(j) => match j.as_str() {
            Some(s) => {
                let t = trim_str(s);
                let tc = chars_of(t.as_str());
                if tc.len() > 0 {
                    Some(t)
                } else {
                    None
                }
            },
            None => None,
        },
        None => None,
    };
    match name {
        Some(n) => security_label(Some(n.as_str()), symbol),
        None => security_label(None, symbol),
    }
}

/// The heading of a US chart reply.
pub open spec fn yahoo_heading_of(label: Seq<char>, interval: Interval, adjusted: bool, limit: nat) -> Seq<char> {
    "## "@ + label + " · "@ + label_of(interval) + " · "@ + (if adjusted { "Adj"@ } else { "Raw"@ })
        + " ("@ + decimal(limit) + ")\n\n"@
}

/// `yahoo_heading_of` as a string.
pub fn yahoo_heading(label: &str, interval: Interval, adjusted: bool, limit: usize) -> (r: String)
    ensures
        r@ == yahoo_heading_of(label@, interval, adjusted, limit as nat),
{
    let mut out = owned("## ");
    push_str(&mut out, label);
    push_str(&mut out, " · ");
    push_str(&mut out, interval.label());
    push_str(&mut out, " · ");
    push_str(&mut out, if adjusted { "Adj" } else { "Raw" });
    push_str(&mut out, " (");
    let n = fmt_u64(limit as u64);
    push_str(&mut out, n.as_str());
    push_str(&mut out, ")\n\n");
    out
}

/// The date column head and rule of a price table: wider for 15-minute
/// bars, whose dates carry the time.
pub open spec fn date_column_of(interval: Interval) -> (Seq<char>, Seq<char>) {
    if interval == Interval::Minute15 {
        ("Date             "@, "------------------"@)
    } else {
        ("Date       "@, "-----------"@)
    }
}

/// The two head lines of a US chart table.
pub fn yahoo_table_head(interval: Interval) -> (r: String)
    ensures
        r@ == "| "@ + date_column_of(interval).0 + " | Open    | High    | Low     | Close   | Volume   |\n|"@
            + date_column_of(interval).1 + "|---------|---------|---------|---------|----------|\n"@,
{
    let (head, rule) = if interval == Interval::Minute15 {
        ("Date             ", "------------------")
    } else {
        ("Date       ", "-----------")
    };
    let mut out = owned("| ");
    push_str(&mut out, head);
    push_str(&mut out, " | Open    | High    | Low     | Close   | Volume   |\n|");
    push_str(&mut out, rule);
    push_str(&mut out, "|---------|---------|---------|---------|----------|\n");
    out
}

/// The two head lines of a crypto exchange table.
pub fn binance_table_head(interval: Interval) -> (r: String)
    ensures
        r@ == "| "@ + date_column_of(interval).0
            + " | Open        | High        | Low         | Close       | Volume       |\n|"@
            + date_column_of(interval).1
            + "|-------------|-------------|-------------|-------------|-------------|\n"@,
{
    let (head, rule) = if interval == Interval::Minute15 {
        ("Date             ", "------------------")
    } else {
        ("Date       ", "-----------")
    };
    let mut out = owned("| ");
    push_str(&mut out, head);
    push_str(&mut out, " | Open        | High        | Low         | Close       | Volume       |\n|");
    push_str(&mut out, rule);
    push_str(&mut out, "|-------------|-------------|-------------|-------------|-------------|\n");
    out
}

/// The pair named in a crypto exchange heading: the symbol without its
/// trailing `USDT`s, then `BTC`s, then `ETH`s.
pub open spec fn pair_base_of(symbol: Seq<char>) -> Seq<char> {
    strip_suffixes(strip_suffixes(strip_suffixes(symbol, "USDT"@), "BTC"@), "ETH"@)
}

/// The heading of a crypto exchange reply.
pub open spec fn binance_heading_of(symbol: Seq<char>, interval: Interval, limit: nat) -> Seq<char> {
    "## "@ + pair_base_of(symbol) + "/USDT · "@ + label_of(interval) + " · Binance ("@ + decimal(limit)
        + ")\n\n"@
}

/// `binance_heading_of` as a string.
pub fn binance_heading(symbol: &str, interval: Interval, limit: usize) -> (r: String)
    ensures
        r@ == binance_heading_of(symbol@, interval, limit as nat),
{
    let u = chars_of(symbol);
    let usdt = chars_of("USDT");
    let btc = chars_of("BTC");
    let eth = chars_of("ETH");
    let a = strip_suffixes_chars(u, usdt.as_slice());
    let b = strip_suffixes_chars(a, btc.as_slice());
    let c = strip_suffixes_chars(b, eth.as_slice());
    let base = string_of(c.as_slice());
    let mut out = owned("## ");
    push_str(&mut out, base.as_str());
    push_str(&mut out, "/USDT · ");
    push_str(&mut out, interval.label());
    push_str(&mut out, " · Binance (");
    let n = fmt_u64(limit as u64);
    push_str(&mut out, n.as_str());
    push_str(&mut out, ")\n\n");
    out
}

/// The heading of a crypto fallback reply.
pub open spec fn coingecko_heading_of(base: Seq<char>, interval: Interval, limit: nat) -> Seq<char> {
    "## "@ + base + "/USD · "@ + label_of(interval) + " · CoinGecko ("@ + decimal(limit) + ")\n\n"@
}

/// `coingecko_heading_of` as a string.
pub fn coingecko_heading(base: &str, interval: Interval, limit: usize) -> (r: String)
    ensures
        r@ == coingecko_heading_of(base@, interval, limit as nat),
{
    let mut out = owned("## ");
    push_str(&mut out, base);
    push_str(&mut out, "/USD · ");
    push_str(&mut out, interval.label());
    push_str(&mut out, " · CoinGecko (");
    let n = fmt_u64(limit as u64);
    push_str(&mut out, n.as_str());
    push_str(&mut out, ")\n\n");
    out
}

/// `runs` splits the indices of `dates` into maximal runs of equal
/// neighbouring dates, as `(first, last)` pairs in order: every index lies
/// in one run, a run holds one date, and neighbouring runs differ.
pub open spec fn is_date_runs(dates: Seq<Seq<char>>, runs: Seq<(usize, usize)>) -> bool {
    &&& (dates.len() == 0) == (runs.len() == 0)
    &&& runs.len() > 0 ==> runs[0].0 == 0 && runs[runs.len() - 1].1 == dates.len() - 1
    &&& forall|k: int| 0 <= k < runs.len() ==> #[trigger] runs[k].0 <= runs[k].1 < dates.len()
    &&& forall|k: int| 0 <= k < runs.len() - 1 ==> #[trigger] runs[k + 1].0 == runs[k].1 + 1
    &&& forall|k: int, i: int|
        0 <= k < runs.len() && runs[k].0 <= i <= runs[k].1 ==> #[trigger] dates[i] == dates[#[trigger] runs[k].0 as int]
    &&& forall|k: int| 0 <= k < runs.len() - 1 ==> dates[#[trigger] runs[k + 1].0 as int] != dates[runs[k].1 as int]
}

/// The runs of equal dates in date-ordered bars, which the crypto
/// fallback source repeats for each 4-hour candle of a day: each run
/// becomes one daily bar.
pub fn same_day_runs(dates: &Vec<String>) -> (runs: Vec<(usize, usize)>)
    ensures
        is_date_runs(views(dates@), runs@),
{
    let ghost d = views(dates@);
    let mut runs: Vec<(usize, usize)> = Vec::new();
    let n = dates.len();
    if n == 0 {
        return runs;
    }
    let mut start: usize = 0;
    let mut i: usize = 1;
    while i < n
        invariant
            n == dates.len(),
            d == views(dates@),
            1 <= i <= n,
            start < i,
            forall|j: int| start <= j < i ==> #[trigger] d[j] == d[start as int],
            (runs@.len() == 0) == (start == 0),
            runs@.len() > 0 ==> runs@[0].0 == 0 && runs@[runs@.len() - 1].1 == start - 1,
            runs@.len() > 0 ==> d[start as int] != d[runs@[runs@.len() - 1].1 as int],
            forall|k: int| 0 <= k < runs@.len() ==> #[trigger] runs@[k].0 <= runs@[k].1 < start,
            forall|k: int| 0 <= k < runs@.len() - 1 ==> #[trigger] runs@[k + 1].0 == runs@[k].1 + 1,
            forall|k: int, j: int|
                0 <= k < runs@.len() && runs@[k].0 <= j <= runs@[k].1 ==> #[trigger] d[j] == d[#[trigger] runs@[k].0 as int],
            forall|k: int| 0 <= k < runs@.len() - 1 ==> d[#[trigger] runs@[k + 1].0 as int] != d[runs@[k].1 as int],
        decreases n - i,
    {
        if !str_eq(dates[i].as_str(), dates[start].as_str()) {
            let ghost before = runs@;
            runs.push((start, i - 1));
            proof {
                assert(runs@[runs@.len() - 1] == (start, (i - 1) as usize));
                assert forall|k: int, j: int|
                    0 <= k < runs@.len() && runs@[k].0 <= j <= runs@[k].1 implies #[trigger] d[j] == d[#[trigger] runs@[k].0 as int] by {
                    if k < before.len() {
                        assert(runs@[k] == before[k]);
                    }
                }
                assert forall|k: int| 0 <= k < runs@.len() - 1 implies d[#[trigger] runs@[k + 1].0 as int] != d[runs@[k].1 as int] by {
                    if k + 1 < before.len() {
                        assert(runs@[k] == before[k]);
                        assert(runs@[k + 1] == before[k + 1]);
                    }
                }
                assert forall|k: int| 0 <= k < runs@.len() - 1 implies #[trigger] runs@[k + 1].0 == runs@[k].1 + 1 by {
                    if k + 1 < before.len() {
                        assert(runs@[k] == before[k]);
                        assert(runs@[k + 1] == before[k + 1]);
                    }
                }
            }
            start = i;
        }
        i = i + 1;
    }
    let ghost before = runs@;
    runs.push((start, n - 1));
    proof {
        assert(runs@[runs@.len() - 1] == (start, (n - 1) as usize));
        assert forall|k: int, j: int|
            0 <= k < runs@.len() && runs@[k].0 <= j <= runs@[k].1 implies #[trigger] d[j] == d[#[trigger] runs@[k].0 as int] by {
            if k < before.len() {
                assert(runs@[k] == before[k]);
            }
        }
        assert forall|k: int| 0 <= k < runs@.len() - 1 implies d[#[trigger] runs@[k + 1].0 as int] != d[runs@[k].1 as int] by {
            if k + 1 < before.len() {
                assert(runs@[k] == before[k]);
                assert(runs@[k + 1] == before[k + 1]);
            }
        }
        assert forall|k: int| 0 <= k < runs@.len() - 1 implies #[trigger] runs@[k + 1].0 == runs@[k].1 + 1 by {
            if k + 1 < before.len() {
                assert(runs@[k] == before[k]);
                assert(runs@[k + 1] == before[k + 1]);
            }
        }
    }
    runs
}


/// The US source's interval codes name the four intervals apart, and a
/// daily request asks for daily bars (`1d`), a weekly one for weekly
/// bars (`1wk`); minutes and months agree with the crypto exchange's
/// codes in their digits and unit letter.
pub proof fn lemma_yahoo_codes_distinct(a: Interval, b: Interval)
    ensures
        a != b ==> yahoo_code(a) != yahoo_code(b),
        yahoo_code(Interval::Day) == "1d"@,
        yahoo_code(Interval::Week) == "1wk"@,
        yahoo_code(Interval::Day) == binance_code(Interval::Day),
        yahoo_code(Interval::Minute15) == binance_code(Interval::Minute15),
{
    reveal_strlit("15m");
    reveal_strlit("1d");
    reveal_strlit("1wk");
    reveal_strlit("1mo");
    if a != b {
        assert(yahoo_code(a).len() != yahoo_code(b).len() || yahoo_code(a)[1] != yahoo_code(b)[1]);
    }
}


/// The crypto exchange's interval codes and the two interval labels name
/// the four intervals apart; the exchange asks for daily bars with `1d`
/// and monthly ones with `1M`.
pub proof fn lemma_interval_names_distinct(a: Interval, b: Interval)
    ensures
        a != b ==> binance_code(a) != binance_code(b),
        a != b ==> label_of(a) != label_of(b),
        a != b ==> label_cn_of(a) != label_cn_of(b),
        binance_code(Interval::Day) == "1d"@,
        binance_code(Interval::Month) == "1M"@,
{
    reveal_strlit("15m");
    reveal_strlit("1d");
    reveal_strlit("1w");
    reveal_strlit("1M");
    reveal_strlit("Daily");
    reveal_strlit("Weekly");
    reveal_strlit("Monthly");
    reveal_strlit("15分钟");
    reveal_strlit("日线");
    reveal_strlit("周线");
    reveal_strlit("月线");
    if a != b {
        assert(binance_code(a).len() != binance_code(b).len() || binance_code(a)[1] != binance_code(b)[1]);
        assert(label_of(a)[0] != label_of(b)[0] || label_of(a).len() != label_of(b).len());
        assert(label_cn_of(a)[0] != label_cn_of(b)[0] || label_cn_of(a).len() != label_cn_of(b).len());
    }
}

} // verus!
