//! The requests of the two crypto tools, `get_crypto_market` and
//! `get_funding_rate`, and the exchange addresses they are sent to.
use vstd::prelude::*;

use crate::json::{arg_str, arg_u64, get_str, get_u64, Json};
use crate::text::{decimal, fmt_u64, owned, push_str, str_eq, trim, trim_str, to_upper, upper_case};

verus! {

// ---------------------------------------------------------------------
// get_crypto_market
// ---------------------------------------------------------------------
/// What a market call asks for.
pub enum CryptoMode {
    Global,
    TopCoins,
    CoinDetail(String),
}

/// A market request.
pub struct CryptoRequest {
    pub mode: CryptoMode,
    pub vs_currency: String,
    pub limit: u64,
}

/// The outcome of reading a market call.
pub open spec fn crypto_request_ok(args: Json, r: Result<CryptoRequest, String>) -> bool {
    match arg_str(args, "mode"@) {
        None => r matches Err(e) && e@ == "missing 'mode' argument"@,
        Some(m) => {
            let fields_ok = |q: CryptoRequest|
                q.vs_currency@ == (match arg_str(args, "vs_currency"@) {
                    Some(c) => c,
                    None => "usd"@,
                }) && q.limit == (match arg_u64(args, "limit"@) {
                    Some(n) => n,
                    None => 20,
                });
            if m == "global"@ {
                r matches Ok(q) && q.mode is Global && fields_ok(q)
            } else if m == "top_coins"@ {
                r matches Ok(q) && q.mode is TopCoins && fields_ok(q)
            } else if m == "coin_detail"@ {
                match arg_str(args, "coin_id"@) {
                    Some(id) => r matches Ok(q) && (q.mode matches CryptoMode::CoinDetail(c) && c@ == id) && fields_ok(q),
                    None => r matches Err(e) && e@ == "'coin_id' is required for coin_detail mode"@,
                }
            } else {
                r matches Err(e) && e@ == "unknown mode '"@ + m + "' — use 'global', 'top_coins', or 'coin_detail'"@
            }
        },
    }
}

/// Reads a market call: `global`, `top_coins`, or `coin_detail` with a
/// coin id; the quote currency is `usd` and the limit twenty by default.
pub fn crypto_request(args: &Json) -> (r: Result<CryptoRequest, String>)
    ensures
        crypto_request_ok(*args, r),
{
    let mode = match get_str(args, "mode") {
        Some(m) => m,
        None => return Err(owned("missing 'mode' argument")),
    };
    let vs_currency = match get_str(args, "vs_currency") {
        Some(c) => owned(c),
        None => owned("usd"),
    };
    let limit: u64 = match get_u64(args, "limit") {
        Some(n) => n,
        None => 20,
    };
    if str_eq(mode, "global") {
        Ok(CryptoRequest { mode: CryptoMode::Global, vs_currency, limit })
    } else if str_eq(mode, "top_coins") {
        Ok(CryptoRequest { mode: CryptoMode::TopCoins, vs_currency, limit })
    } else if str_eq(mode, "coin_detail") {
        match get_str(args, "coin_id") {
            Some(id) => Ok(CryptoRequest { mode: CryptoMode::CoinDetail(owned(id)), vs_currency, limit }),
            None => Err(owned("'coin_id' is required for coin_detail mode")),
        }
    } else {
        let mut e = owned("unknown mode '");
        push_str(&mut e, mode);
        push_str(&mut e, "' — use 'global', 'top_coins', or 'coin_detail'");
        Err(e)
    }
}

/// Coins one top-coins page holds: the limit kept within `1..=50`.
pub open spec fn per_page(limit: u64) -> u64 {
    if limit < 1 {
        1
    } else if limit > 50 {
        50
    } else {
        limit
    }
}

/// The CoinGecko address of a top-coins page.
pub fn top_coins_url(vs_currency: &str, limit: u64) -> (r: String)
    ensures
        r@ == "https://api.coingecko.com/api/v3/coins/markets?vs_currency="@ + vs_currency@
            + "&order=market_cap_desc&per_page="@ + decimal(per_page(limit) as nat) + "&page=1&sparkline=false"@,
{
    let n: u64 = if limit < 1 {
        1
    } else if limit > 50 {
        50
    } else {
        limit
    };
    let mut r = owned("https://api.coingecko.com/api/v3/coins/markets?vs_currency=");
    push_str(&mut r, vs_currency);
    push_str(&mut r, "&order=market_cap_desc&per_page=");
    push_str(&mut r, fmt_u64(n).as_str());
    push_str(&mut r, "&page=1&sparkline=false");
    r
}

/// The CoinGecko address of one coin's market data.
pub fn coin_detail_url(coin_id: &str) -> (r: String)
    ensures
        r@ == "https://api.coingecko.com/api/v3/coins/"@ + coin_id@
            + "?localization=false&tickers=false&market_data=true&community_data=false&developer_data=false"@,
{
    let mut r = owned("https://api.coingecko.com/api/v3/coins/");
    push_str(&mut r, coin_id);
    push_str(&mut r, "?localization=false&tickers=false&market_data=true&community_data=false&developer_data=false");
    r
}

// ---------------------------------------------------------------------
// get_funding_rate
// ---------------------------------------------------------------------
/// The exchanges funding rates are read from.
pub enum Exchange {
    Binance,
    Okx,
}

/// A funding-rate request.
pub struct FundingRequest {
    /// The symbol, trimmed and upper-cased.
    pub symbol: String,
    pub exchange: Exchange,
    /// Funding records asked of Binance, within `1..=100`.
    pub limit: u64,
}

/// The record limit a call names, kept within `1..=100`, else ten.
pub open spec fn funding_limit(args: Json) -> u64 {
    match arg_u64(args, "limit"@) {
        Some(n) => if n < 1 {
            1
        } else if n > 100 {
            100
        } else {
            n
        },
        None => 10,
    }
}

/// Reads a funding-rate call: the symbol is required; `okx` names OKX,
/// anything else (and no exchange) Binance.
pub fn funding_request(args: &Json) -> (r: Result<FundingRequest, String>)
    ensures
        match arg_str(*args, "symbol"@) {
            None => r matches Err(e) && e@ == "missing 'symbol' argument"@,
            Some(s) => r matches Ok(q) && q.symbol@ == upper_case(trim(s)) && q.limit == funding_limit(*args) && (
            q.exchange is Okx <==> arg_str(*args, "exchange"@) == Some("okx"@)),
        },
{
    let symbol = match get_str(args, "symbol") {
        Some(s) => to_upper(trim_str(s).as_str()),
        None => return Err(owned("missing 'symbol' argument")),
    };
    let exchange = match get_str(args, "exchange") {
        Some(e) => if str_eq(e, "okx") {
            Exchange::Okx
        } else {
            Exchange::Binance
        },
        None => Exchange::Binance,
    };
    let limit: u64 = match get_u64(args, "limit") {
        Some(n) => if n < 1 {
            1
        } else if n > 100 {
            100
        } else {
            n
        },
        None => 10,
    };
    Ok(FundingRequest { symbol, exchange, limit })
}

/// The Binance addresses of a symbol: funding records, open interest,
/// and the hourly long/short account ratio.
pub open spec fn binance_urls_text(symbol: Seq<char>, limit: u64) -> (Seq<char>, Seq<char>, Seq<char>) {
    (
        "https://fapi.binance.com/fapi/v1/fundingRate?symbol="@ + symbol + "&limit="@ + decimal(limit as nat),
        "https://fapi.binance.com/fapi/v1/openInterest?symbol="@ + symbol,
        "https://fapi.binance.com/futures/data/globalLongShortAccountRatio?symbol="@ + symbol
            + "&period=1h&limit=8"@,
    )
}

/// The Binance addresses of a symbol.
pub fn binance_urls(symbol: &str, limit: u64) -> (r: (String, String, String))
    ensures
        (r.0@, r.1@, r.2@) == binance_urls_text(symbol@, limit),
{
    let mut funding = owned("https://fapi.binance.com/fapi/v1/fundingRate?symbol=");
    push_str(&mut funding, symbol);
    push_str(&mut funding, "&limit=");
    push_str(&mut funding, fmt_u64(limit).as_str());
    let mut oi = owned("https://fapi.binance.com/fapi/v1/openInterest?symbol=");
    push_str(&mut oi, symbol);
    let mut ls = owned("https://fapi.binance.com/futures/data/globalLongShortAccountRatio?symbol=");
    push_str(&mut ls, symbol);
    push_str(&mut ls, "&period=1h&limit=8");
    (funding, oi, ls)
}

/// The OKX addresses of an instrument: funding rate and open interest.
pub fn okx_urls(symbol: &str) -> (r: (String, String))
    ensures
        r.0@ == "https://www.okx.com/api/v5/public/funding-rate?instId="@ + symbol@,
        r.1@ == "https://www.okx.com/api/v5/public/open-interest?instId="@ + symbol@,
{
    let mut funding = owned("https://www.okx.com/api/v5/public/funding-rate?instId=");
    push_str(&mut funding, symbol);
    let mut oi = owned("https://www.okx.com/api/v5/public/open-interest?instId=");
    push_str(&mut oi, symbol);
    (funding, oi)
}


// ---------------------------------------------------------------------
// The open-interest unit
// ---------------------------------------------------------------------
/// Whether `char::is_alphabetic` holds of `c` (Unicode's Alphabetic).
pub uninterp spec fn alphabetic(c: char) -> bool;

/// Whether `char::is_uppercase` holds of `c` (Unicode's Uppercase).
pub uninterp spec fn uppercase(c: char) -> bool;

/// `char::is_alphabetic`; its result is `alphabetic` of the character,
/// and on ASCII it holds of the letters alone.
#[verifier::external_body]
fn char_is_alphabetic(c: char) -> (r: bool)
    ensures
        r == alphabetic(c),
        (c as u32) < 128 ==> (r <==> (('a' <= c && c <= 'z') || ('A' <= c && c <= 'Z'))),
{
    c.is_alphabetic()
}

/// `char::is_uppercase`; its result is `uppercase` of the character, and
/// on ASCII it holds of `A`–`Z` alone.
#[verifier::external_body]
fn char_is_uppercase(c: char) -> (r: bool)
    ensures
        r == uppercase(c),
        (c as u32) < 128 ==> (r <==> ('A' <= c && c <= 'Z')),
{
    c.is_uppercase()
}

/// A letter of the base assets the unit keeps (`B T C E H N S O L`, the
/// letters of "BTCETHBNBSOL").
pub open spec fn kept_letter(c: char) -> bool {
    c == 'B' || c == 'T' || c == 'C' || c == 'E' || c == 'H' || c == 'N' || c == 'S' || c == 'O' || c == 'L'
}

/// A trailing character the unit drops: an upper-case letter outside
/// the kept ones.
pub open spec fn dropped_tail_char(c: char) -> bool {
    alphabetic(c) && uppercase(c) && !kept_letter(c)
}

/// `s` without its trailing dropped characters
/// (`str::trim_end_matches` with that test).
pub open spec fn open_interest_unit_of(s: Seq<char>) -> Seq<char>
    decreases s.len(),
{
    if s.len() > 0 && dropped_tail_char(s.last()) {
        open_interest_unit_of(s.drop_last())
    } else {
        s
    }
}

/// The unit an exchange's open interest is quoted in, read off its
/// symbol: the symbol without the trailing quote-currency letters.
pub fn open_interest_unit(symbol: &str) -> (r: String)
    ensures
        r@ == open_interest_unit_of(symbol@),
{
    let v = crate::text::chars_of(symbol);
    let mut n: usize = v.len();
    assert(v@.take(n as int) =~= v@);
    loop
        invariant
            n <= v@.len(),
            open_interest_unit_of(v@) == open_interest_unit_of(v@.take(n as int)),
        ensures
            n <= v@.len(),
            open_interest_unit_of(v@) == open_interest_unit_of(v@.take(n as int)),
            n == 0 || !dropped_tail_char(v@[n - 1]),
        decreases n,
    {
        if n == 0 {
            break;
        }
        let c = v[n - 1];
        let drop = char_is_alphabetic(c) && char_is_uppercase(c) && !(c == 'B' || c == 'T' || c == 'C' || c
            == 'E' || c == 'H' || c == 'N' || c == 'S' || c == 'O' || c == 'L');
        if !drop {
            break;
        }
        assert(v@.take(n as int).drop_last() =~= v@.take(n - 1));
        assert(v@.take(n as int).last() == c);
        n = n - 1;
    }
    let head = crate::text::prefix_chars(v.as_slice(), n);
    proof {
        if n == 0 {
            assert(v@.take(0) =~= Seq::<char>::empty());
        } else {
            assert(v@.take(n as int).last() == v@[n - 1]);
        }
        assert(crate::text::prefix(v@, n as int) =~= v@.take(n as int));
    }
    crate::text::string_of(head.as_slice())
}


// ---------------------------------------------------------------------
// Times of funding records
// ---------------------------------------------------------------------
/// The text `chrono` prints, with the strftime pattern `pattern`, for
/// the instant `millis` milliseconds after the Unix epoch in UTC;
/// nothing where `chrono` has no such instant.
pub uninterp spec fn utc_millis_formatted(millis: i64, pattern: Seq<char>) -> Option<Seq<char>>;

/// `Utc.timestamp_millis_opt(millis).single()` shown with
/// `format(pattern)`; the result is `utc_millis_formatted` of the
/// arguments. Only the two patterns the reports use are admitted (an
/// invalid pattern makes `to_string` panic).
#[verifier::external_body]
fn utc_millis_format(millis: i64, pattern: &str) -> (r: Option<String>)
    requires
        pattern@ == "%Y-%m-%d %H:%M"@ || pattern@ == "%Y-%m-%d %H:%M UTC"@,
    ensures
        match r {
            Some(t) => utc_millis_formatted(millis, pattern@) == Some(t@),
            None => utc_millis_formatted(millis, pattern@) is None,
        },
{
    chrono::TimeZone::timestamp_millis_opt(&chrono::Utc, millis).single().map(|t| t.format(pattern).to_string())
}

/// The time of a funding record in UTC to the minute, `-` where there
/// is no such instant.
pub fn utc_minutes(millis: i64, pattern: &str) -> (r: String)
    requires
        pattern@ == "%Y-%m-%d %H:%M"@ || pattern@ == "%Y-%m-%d %H:%M UTC"@,
    ensures
        match utc_millis_formatted(millis, pattern@) {
            Some(t) => r@ == t,
            None => r@ == "-"@,
        },
{
    match utc_millis_format(millis, pattern) {
        Some(t) => t,
        None => owned("-"),
    }
}

} // verus!
