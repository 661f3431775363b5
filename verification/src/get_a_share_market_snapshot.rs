//! A-share market snapshot: the official latest close and valuation, the
//! public near-realtime quote, or both, for up to twenty codes.
use vstd::prelude::*;

use crate::beijing_time::{utc8_format, utc8_formatted};
use crate::get_a_share_research_sources::opt_view;
use crate::get_a_share_industry_context::opt_json;
use crate::json::{arg_array, arg_str, get_array, get_str, str_items, value_text, value_text_exec, Json};
use crate::table::{first_cell_text, opt_text, opt_text_exec, Table};
use crate::coverage::push_text;
use crate::tools::{is_abort, is_abort_error};
use crate::text::{
    chars_of, collapse, collapse_chars, ends_with, fmt_i64, i64_from_str, join, join_strings,
    owned, parse_i64, push_str, signed_decimal, str_eq, string_of, to_upper, trim, trim_str,
    truncate, truncate_chars, upper_case, views, table_line, table_row, decimal, fmt_u64,
};

verus! {

/// Most codes one call reports on.
pub const MAX_TICKERS: usize = 20;

/// Whitespace runs collapsed to single spaces, cut to `max_chars`
/// characters with `...` appended when it was longer.
pub open spec fn compact(s: Seq<char>, max_chars: int) -> Seq<char> {
    truncate(collapse(s), max_chars, seq!['.', '.', '.'])
}

/// `compact` of a text.
pub fn compact_text(s: &str, max_chars: usize) -> (r: String)
    ensures
        r@ == compact(s@, max_chars as int),
{
    let v = chars_of(s);
    let c = collapse_chars(v.as_slice());
    let t = truncate_chars(c.as_slice(), max_chars, "...");
    proof {
        reveal_strlit("...");
    }
    string_of(t.as_slice())
}

/// The public quote market id and symbol of an A-share code: `1.` for
/// Shanghai, `0.` for Shenzhen and Beijing; nothing for other suffixes.
pub open spec fn secid_of(code: Seq<char>) -> Option<Seq<char>> {
    if ends_with(code, ".SH"@) {
        Some("1."@ + code.take(code.len() - 3))
    } else if ends_with(code, ".SZ"@) || ends_with(code, ".BJ"@) {
        Some("0."@ + code.take(code.len() - 3))
    } else {
        None
    }
}

/// `secid_of` an already normalized (trimmed, upper-cased) code.
pub fn secid_from_code(code: &str) -> (r: Option<String>)
    ensures
        opt_view(r) == secid_of(code@),
{
    let v = chars_of(code);
    let sh = chars_of(".SH");
    let sz = chars_of(".SZ");
    let bj = chars_of(".BJ");
    let is_sh = crate::text::ends_with_chars(v.as_slice(), sh.as_slice());
    let is_sz = crate::text::ends_with_chars(v.as_slice(), sz.as_slice());
    let is_bj = crate::text::ends_with_chars(v.as_slice(), bj.as_slice());
    if !is_sh && !is_sz && !is_bj {
        return None;
    }
    proof {
        reveal_strlit(".SH");
        reveal_strlit(".SZ");
        reveal_strlit(".BJ");
    }
    let mut out: Vec<char> = Vec::new();
    if is_sh {
        out.push('1');
    } else {
        out.push('0');
    }
    out.push('.');
    let n = v.len() - 3;
    let mut i: usize = 0;
    while i < n
        invariant
            i <= n,
            n == v@.len() - 3,
            n <= v@.len(),
            out@.len() == 2 + i,
            out@.skip(2) =~= v@.take(i as int),
            out@[0] == (if is_sh { '1' } else { '0' }),
            out@[1] == '.',
        decreases n - i,
    {
        out.push(v[i]);
        assert(out@.skip(2) =~= v@.take(i + 1));
        i = i + 1;
    }
    proof {
        reveal_strlit("1.");
        reveal_strlit("0.");
        if is_sh {
            assert(out@ =~= "1."@ + code@.take(code@.len() - 3));
        } else {
            assert(out@ =~= "0."@ + code@.take(code@.len() - 3));
        }
    }
    Some(string_of(out.as_slice()))
}

/// The public quote id of a code, after trimming and upper-casing it;
/// an error for a code without an A-share suffix.
pub fn eastmoney_secid(ts_code: &str) -> (r: Result<String, String>)
    ensures
        match r {
            Ok(s) => secid_of(upper_case(trim(ts_code@))) == Some(s@),
            Err(e) => secid_of(upper_case(trim(ts_code@))) is None
                && e@ == "Eastmoney realtime quote expects A-share ts_code with .SH, .SZ, or .BJ suffix"@,
        },
{
    let t = trim_str(ts_code);
    let code = to_upper(t.as_str());
    match secid_from_code(code.as_str()) {
        Some(s) => Ok(s),
        None => Err(
            owned("Eastmoney realtime quote expects A-share ts_code with .SH, .SZ, or .BJ suffix"),
        ),
    }
}

/// Label of a public quote source.
pub open spec fn quote_source_label(source: Seq<char>) -> Seq<char> {
    if source == "eastmoney_push2"@ {
        "东方财富盘中行情"@
    } else if source == "eastmoney_push2delay"@ {
        "东方财富延迟行情"@
    } else {
        "东方财富公开行情"@
    }
}

/// `quote_source_label` of a source.
pub fn eastmoney_quote_source_label(source: &str) -> (r: &'static str)
    ensures
        r@ == quote_source_label(source@),
{
    if str_eq(source, "eastmoney_push2") {
        "东方财富盘中行情"
    } else if str_eq(source, "eastmoney_push2delay") {
        "东方财富延迟行情"
    } else {
        "东方财富公开行情"
    }
}

/// Label of a snapshot section's source.
pub open spec fn snapshot_source_label(source: Seq<char>) -> Seq<char> {
    if source == "tushare_latest_close"@ {
        "最近收盘"@
    } else if source == "eastmoney_realtime_quote"@ {
        "盘中公开行情"@
    } else {
        "行情来源"@
    }
}

/// `snapshot_source_label` of a source.
pub fn market_snapshot_source_label(source: &str) -> (r: &'static str)
    ensures
        r@ == snapshot_source_label(source@),
{
    if str_eq(source, "tushare_latest_close") {
        "最近收盘"
    } else if str_eq(source, "eastmoney_realtime_quote") {
        "盘中公开行情"
    } else {
        "行情来源"
    }
}

/// The section shown for a source that failed with message `err`.
pub open spec fn unavailable_text(title: Seq<char>, source: Seq<char>, err: Seq<char>) -> Seq<char> {
    "## "@ + title + " · "@ + snapshot_source_label(source) + " · 来源不可用\n\n- 来源不可用："@
        + compact(err, 180) + "。这代表覆盖/访问缺口，不是有效空结果。\n"@
}

/// `unavailable_text` of a failed source.
pub fn unavailable_section(title: &str, source: &str, err: &str) -> (r: String)
    ensures
        r@ == unavailable_text(title@, source@, err@),
{
    let mut out = owned("## ");
    push_str(&mut out, title);
    push_str(&mut out, " · ");
    push_str(&mut out, market_snapshot_source_label(source));
    push_str(&mut out, " · 来源不可用\n\n- 来源不可用：");
    push_str(&mut out, compact_text(err, 180).as_str());
    push_str(&mut out, "。这代表覆盖/访问缺口，不是有效空结果。\n");
    out
}

/// Adds the outcome of one source to the sections: its section when it
/// answered, the unavailable section when it failed, unless the failure
/// is an abort, which ends the call with that failure and adds nothing.
pub fn push_section_result(
    sections: &mut Vec<String>,
    title: &str,
    source: &str,
    result: Result<String, String>,
    cancelled: bool,
) -> (r: Result<(), String>)
    ensures
        match result {
            Ok(section) => r is Ok && views(final(sections)@) == views(old(sections)@).push(section@),
            Err(e) => if is_abort(cancelled, e@) {
                r matches Err(m) && m@ == e@ && final(sections)@ == old(sections)@
            } else {
                r is Ok && views(final(sections)@) == views(old(sections)@).push(
                    unavailable_text(title@, source@, e@),
                )
            },
        },
{
    match result {
        Ok(section) => {
            push_text(sections, section);
            Ok(())
        },
        Err(e) => {
            if is_abort_error(cancelled, e.as_str()) {
                Err(e)
            } else {
                push_text(sections, unavailable_section(title, source, e.as_str()));
                Ok(())
            }
        },
    }
}

/// The text of `field` in the first row of a table.
pub fn first_text(table: &Table, field: &str) -> (r: String)
    ensures
        r@ == first_cell_text(*table, field@),
{
    table.first_text(field)
}

/// The text of an optional cell.
pub fn value_text_opt(v: Option<&Json>) -> (r: String)
    ensures
        r@ == opt_text(opt_json(v)),
{
    opt_text_exec(v)
}

/// The integer a cell holds: an integer number or a string that parses
/// as one.
pub open spec fn cell_i64(v: Option<Json>) -> Option<i64> {
    match v {
        Some(Json::Number(n)) => n.as_i64,
        Some(Json::String(s)) => i64_from_str(s@),
        _ => None,
    }
}

/// The second-precision UTC+8 text of an epoch-seconds cell; the raw
/// number where the instant is out of range; the cell's text when it
/// holds no integer.
pub open spec fn epoch_text(v: Option<Json>) -> Seq<char> {
    match cell_i64(v) {
        None => opt_text(v),
        Some(ts) => match utc8_formatted(ts, "%Y-%m-%d %H:%M:%S"@) {
            Some(t) => t,
            None => signed_decimal(ts as int),
        },
    }
}

/// `epoch_text` of an optional cell.
pub fn eastmoney_epoch_text(v: Option<&Json>) -> (r: String)
    ensures
        r@ == epoch_text(opt_json(v)),
{
    let ts = match v {
        Some(Json::Number(n)) => n.as_i64,
        Some(Json::String(s)) => parse_i64(s.as_str()),
        _ => None,
    };
    match ts {
        None => value_text_opt(v),
        Some(ts) => match utc8_format(ts, "%Y-%m-%d %H:%M:%S") {
            Some(t) => t,
            None => fmt_i64(ts),
        },
    }
}


// ---------------------------------------------------------------------
// Arguments
// ---------------------------------------------------------------------
/// The codes a list names: its string items trimmed and upper-cased,
/// blank ones dropped, in order.
pub open spec fn code_items(items: Seq<Json>) -> Seq<Seq<char>>
    decreases items.len(),
{
    if items.len() == 0 {
        Seq::empty()
    } else {
        code_items(items.drop_last()) + match items.last().str_spec() {
            Some(s) => if upper_case(trim(s)).len() == 0 {
                Seq::empty()
            } else {
                seq![upper_case(trim(s))]
            },
            None => Seq::empty(),
        }
    }
}

/// The arguments of a snapshot call.
pub struct SnapshotArgs {
    pub ts_codes: Vec<String>,
    pub truncated_count: usize,
    pub include_latest_close: bool,
    pub include_realtime: bool,
}

/// What a snapshot call asks for, or why it is refused: no `ts_codes`
/// list, no usable code in it, or a `freshness` other than
/// `latest_close` (the default), `realtime` or `both`. At most twenty
/// codes are kept; the count of the others is reported.
pub open spec fn snapshot_args_ok(args: Json, r: SnapshotArgs) -> bool {
    match arg_array(args, "ts_codes"@) {
        None => false,
        Some(items) => {
            let codes = code_items(items);
            let freshness = match arg_str(args, "freshness"@) {
                Some(f) => f,
                None => "latest_close"@,
            };
            &&& codes.len() > 0
            &&& views(r.ts_codes@) == if codes.len() <= MAX_TICKERS { codes } else { codes.take(MAX_TICKERS as int) }
            &&& r.truncated_count == if codes.len() <= MAX_TICKERS { 0 } else { codes.len() - MAX_TICKERS }
            &&& r.include_latest_close == (freshness == "latest_close"@ || freshness == "both"@)
            &&& r.include_realtime == (freshness == "realtime"@ || freshness == "both"@)
            &&& (r.include_latest_close || r.include_realtime)
        },
    }
}

/// The error a snapshot call is refused with.
pub open spec fn snapshot_args_error(args: Json) -> Seq<char> {
    match arg_array(args, "ts_codes"@) {
        None => "ts_codes is required"@,
        Some(items) => if code_items(items).len() == 0 {
            "ts_codes must contain at least one A-share code"@
        } else {
            "freshness must be one of latest_close, realtime, or both"@
        },
    }
}

/// Reads the arguments of a snapshot call.
pub fn parse_snapshot_args(args: &Json) -> (r: Result<SnapshotArgs, String>)
    ensures
        match r {
            Ok(a) => snapshot_args_ok(*args, a),
            Err(e) => e@ == snapshot_args_error(*args) && forall|a: SnapshotArgs| !snapshot_args_ok(*args, a),
        },
{
    let items = match get_array(args, "ts_codes") {
        Some(items) => items,
        None => return Err(owned("ts_codes is required")),
    };
    let mut codes: Vec<String> = Vec::new();
    let mut i: usize = 0;
    while i < items.len()
        invariant
            i <= items.len(),
            views(codes@) == code_items(items@.take(i as int)),
        decreases items.len() - i,
    {
        assert(items@.take(i + 1).drop_last() =~= items@.take(i as int));
        let ghost before = views(codes@);
        match items[i].as_str() {
            Some(s) => {
                let t = trim_str(s);
                let u = to_upper(t.as_str());
                if !u.as_str().is_empty() {
                    codes.push(u);
                }
                assert(views(codes@) =~= code_items(items@.take(i + 1)));
            },
            None => {
                assert(views(codes@) =~= code_items(items@.take(i + 1)));
            },
        }
        i = i + 1;
    }
    assert(items@.take(items.len() as int) =~= items@);
    let ghost all = views(codes@);
    let truncated_count: usize = if codes.len() > MAX_TICKERS {
        codes.len() - MAX_TICKERS
    } else {
        0
    };
    if codes.len() > MAX_TICKERS {
        codes.truncate(MAX_TICKERS);
        assert(views(codes@) =~= all.take(MAX_TICKERS as int));
    }
    if codes.len() == 0 {
        return Err(owned("ts_codes must contain at least one A-share code"));
    }
    let freshness = match get_str(args, "freshness") {
        Some(f) => f,
        None => "latest_close",
    };
    let include_latest_close = str_eq(freshness, "latest_close") || str_eq(freshness, "both");
    let include_realtime = str_eq(freshness, "realtime") || str_eq(freshness, "both");
    if !include_latest_close && !include_realtime {
        return Err(owned("freshness must be one of latest_close, realtime, or both"));
    }
    Ok(SnapshotArgs { ts_codes: codes, truncated_count, include_latest_close, include_realtime })
}

// ---------------------------------------------------------------------
// Latest close
// ---------------------------------------------------------------------
/// What the official daily source returned for one code.
pub struct LatestCloseEntry {
    pub code: String,
    pub basic: Table,
    pub quote: Table,
    /// Fetched only when `quote` has rows.
    pub valuation: Table,
    /// Absent when the limit-price request failed.
    pub limit: Option<Table>,
}

/// The table line of one code.
pub open spec fn latest_close_line(e: LatestCloseEntry) -> Seq<char> {
    let name = first_cell_text(e.basic, "name"@);
    if e.quote.rows@.len() == 0 {
        "| "@ + e.code@ + " | "@ + name + " | 无返回记录 |  |  |  |  |  |  |  |  |  |\n"@
    } else {
        table_row(seq![
            e.code@,
            name,
            first_cell_text(e.quote, "trade_date"@),
            first_cell_text(e.quote, "close"@),
            first_cell_text(e.quote, "pct_chg"@),
            first_cell_text(e.quote, "vol"@),
            first_cell_text(e.quote, "amount"@),
            first_cell_text(e.valuation, "turnover_rate"@),
            first_cell_text(e.valuation, "pe_ttm"@),
            first_cell_text(e.valuation, "pb"@),
            first_cell_text(e.valuation, "total_mv"@),
            match e.limit {
                Some(t) => first_cell_text(t, "up_limit"@) + "/"@ + first_cell_text(t, "down_limit"@),
                None => "n/a"@,
            },
        ])
    }
}

/// The table lines of the codes, in order.
pub open spec fn latest_close_lines(entries: Seq<LatestCloseEntry>) -> Seq<char>
    decreases entries.len(),
{
    if entries.len() == 0 {
        Seq::empty()
    } else {
        latest_close_lines(entries.drop_last()) + latest_close_line(entries.last())
    }
}

/// The codes without a latest close, in order.
pub open spec fn empty_codes(entries: Seq<LatestCloseEntry>) -> Seq<Seq<char>>
    decreases entries.len(),
{
    if entries.len() == 0 {
        Seq::empty()
    } else {
        empty_codes(entries.drop_last()) + if entries.last().quote.rows@.len() == 0 {
            seq![entries.last().code@]
        } else {
            Seq::empty()
        }
    }
}

/// The table header of the latest-close section.
pub open spec fn latest_close_header() -> Seq<char> {
    "## A股市场快照 · Tushare 最近收盘\n\n"@
        + "| 代码 | 名称 | 交易日 | 最近收盘 | 涨跌幅% | 成交量(手) | 成交额(千元) | 换手率% | PE(TTM) | PB | 总市值(万元) | 涨跌停价 |\n"@
        + "|---|---|---:|---:|---:|---:|---:|---:|---:|---:|---:|---|\n"@
}

/// The latest-close section.
pub open spec fn latest_close_text(entries: Seq<LatestCloseEntry>) -> Seq<char> {
    let empties = empty_codes(entries);
    latest_close_header() + latest_close_lines(entries) + (if empties.len() == 0 {
        Seq::empty()
    } else {
        "\n_"@ + join(empties, ", "@)
            + " 在最近收盘口径下没有返回记录。这是有效空结果，不代表零成交或不在其他来源覆盖中。_\n"@
    }) + "\n_来源: 配置的官方日频行情/估值来源；成交量与成交额是最近交易日收盘口径，不是盘中实时成交。_\n"@
}

/// The table line of one code.
pub fn latest_close_row(e: &LatestCloseEntry) -> (r: String)
    ensures
        r@ == latest_close_line(*e),
{
    let name = first_text(&e.basic, "name");
    if e.quote.rows.len() == 0 {
        let mut out = owned("| ");
        push_str(&mut out, e.code.as_str());
        push_str(&mut out, " | ");
        push_str(&mut out, name.as_str());
        push_str(&mut out, " | 无返回记录 |  |  |  |  |  |  |  |  |  |\n");
        return out;
    }
    let limits = match &e.limit {
        Some(t) => {
            let mut l = first_text(t, "up_limit");
            push_str(&mut l, "/");
            push_str(&mut l, first_text(t, "down_limit").as_str());
            l
        },
        None => owned("n/a"),
    };
    let mut cells: Vec<String> = Vec::new();
    cells.push(e.code.clone());
    cells.push(name);
    cells.push(first_text(&e.quote, "trade_date"));
    cells.push(first_text(&e.quote, "close"));
    cells.push(first_text(&e.quote, "pct_chg"));
    cells.push(first_text(&e.quote, "vol"));
    cells.push(first_text(&e.quote, "amount"));
    cells.push(first_text(&e.valuation, "turnover_rate"));
    cells.push(first_text(&e.valuation, "pe_ttm"));
    cells.push(first_text(&e.valuation, "pb"));
    cells.push(first_text(&e.valuation, "total_mv"));
    cells.push(limits);
    assert(views(cells@) =~= seq![
        e.code@,
        first_cell_text(e.basic, "name"@),
        first_cell_text(e.quote, "trade_date"@),
        first_cell_text(e.quote, "close"@),
        first_cell_text(e.quote, "pct_chg"@),
        first_cell_text(e.quote, "vol"@),
        first_cell_text(e.quote, "amount"@),
        first_cell_text(e.valuation, "turnover_rate"@),
        first_cell_text(e.valuation, "pe_ttm"@),
        first_cell_text(e.valuation, "pb"@),
        first_cell_text(e.valuation, "total_mv"@),
        match e.limit {
            Some(t) => first_cell_text(t, "up_limit"@) + "/"@ + first_cell_text(t, "down_limit"@),
            None => "n/a"@,
        },
    ]);
    table_line(&cells)
}

/// The latest-close section of the codes' official daily data.
pub fn render_latest_close(entries: &Vec<LatestCloseEntry>) -> (r: String)
    ensures
        r@ == latest_close_text(entries@),
{
    let mut out = owned("## A股市场快照 · Tushare 最近收盘\n\n");
    push_str(
        &mut out,
        "| 代码 | 名称 | 交易日 | 最近收盘 | 涨跌幅% | 成交量(手) | 成交额(千元) | 换手率% | PE(TTM) | PB | 总市值(万元) | 涨跌停价 |\n",
    );
    push_str(&mut out, "|---|---|---:|---:|---:|---:|---:|---:|---:|---:|---:|---|\n");
    let ghost head = out@;
    let mut empties: Vec<String> = Vec::new();
    let mut i: usize = 0;
    while i < entries.len()
        invariant
            i <= entries.len(),
            out@ == head + latest_close_lines(entries@.take(i as int)),
            views(empties@) == empty_codes(entries@.take(i as int)),
        decreases entries.len() - i,
    {
        assert(entries@.take(i + 1).drop_last() =~= entries@.take(i as int));
        let e = &entries[i];
        push_str(&mut out, latest_close_row(e).as_str());
        let ghost before = views(empties@);
        if e.quote.rows.len() == 0 {
            empties.push(e.code.clone());
        }
        assert(views(empties@) =~= empty_codes(entries@.take(i + 1)));
        i = i + 1;
    }
    assert(entries@.take(entries.len() as int) =~= entries@);
    if empties.len() > 0 {
        push_str(&mut out, "\n_");
        push_str(&mut out, join_strings(&empties, ", ").as_str());
        push_str(
            &mut out,
            " 在最近收盘口径下没有返回记录。这是有效空结果，不代表零成交或不在其他来源覆盖中。_\n",
        );
    }
    push_str(
        &mut out,
        "\n_来源: 配置的官方日频行情/估值来源；成交量与成交额是最近交易日收盘口径，不是盘中实时成交。_\n",
    );
    out
}


// ---------------------------------------------------------------------
// Public quote
// ---------------------------------------------------------------------
/// One row of the public quote list.
pub struct EastmoneyQuoteRow {
    pub last: Option<Json>,
    pub pct: Option<Json>,
    pub change: Option<Json>,
    pub volume: Option<Json>,
    pub turnover: Option<Json>,
    pub turnover_rate: Option<Json>,
    pub pe: Option<Json>,
    pub code: Option<Json>,
    pub name: Option<Json>,
    pub high: Option<Json>,
    pub low: Option<Json>,
    pub open: Option<Json>,
    pub prev_close: Option<Json>,
    pub market_value: Option<Json>,
    pub pb: Option<Json>,
    pub update_time: Option<Json>,
}

/// The cells of one quote row: code, name, update time, last, change %,
/// change, open, high, low, previous close, volume, turnover, turnover
/// rate, PE, PB, market value.
pub open spec fn quote_cells(r: EastmoneyQuoteRow) -> Seq<Seq<char>> {
    seq![
        opt_text(r.code),
        opt_text(r.name),
        epoch_text(r.update_time),
        opt_text(r.last),
        opt_text(r.pct),
        opt_text(r.change),
        opt_text(r.open),
        opt_text(r.high),
        opt_text(r.low),
        opt_text(r.prev_close),
        opt_text(r.volume),
        opt_text(r.turnover),
        opt_text(r.turnover_rate),
        opt_text(r.pe),
        opt_text(r.pb),
        opt_text(r.market_value),
    ]
}

/// The table lines of quote rows, in order.
pub open spec fn quote_lines(rows: Seq<EastmoneyQuoteRow>) -> Seq<char>
    decreases rows.len(),
{
    if rows.len() == 0 {
        Seq::empty()
    } else {
        quote_lines(rows.drop_last()) + table_row(quote_cells(rows.last()))
    }
}

/// The public-quote section for the source `source`.
pub open spec fn realtime_text(source: Seq<char>, rows: Seq<EastmoneyQuoteRow>) -> Seq<char> {
    let label = quote_source_label(source);
    "## A股市场快照 · "@ + label + "\n\n"@
        + "| 代码 | 名称 | 更新时间 | 最新价 | 涨跌幅% | 涨跌额 | 今开 | 最高 | 最低 | 昨收 | 成交量(手) | 成交额(元) | 换手率% | PE(动) | PB | 总市值(元) |\n"@
        + "|---|---|---|---:|---:|---:|---:|---:|---:|---:|---:|---:|---:|---:|---:|---:|\n"@ + (if rows.len()
        == 0 {
        "| - | - | - | - | - | - | - | - | - | - | - | - | - | - | - | - |\n"@
            + "\n_当前公开行情来源没有返回记录；这是有效空结果，不代表该股票不交易。_\n"@
    } else {
        quote_lines(rows)
    }) + "\n_来源: 东方财富公开行情；当前口径："@ + label
        + "。按公开延迟/近实时快照处理，不要与 Tushare 最近收盘字段混作同一口径。_\n"@
}

/// The table line of one quote row.
pub fn quote_line(r: &EastmoneyQuoteRow) -> (out: String)
    ensures
        out@ == table_row(quote_cells(*r)),
{
    let c0 = value_text_opt(r.code.as_ref());
    let c1 = value_text_opt(r.name.as_ref());
    let c2 = eastmoney_epoch_text(r.update_time.as_ref());
    let c3 = value_text_opt(r.last.as_ref());
    let c4 = value_text_opt(r.pct.as_ref());
    let c5 = value_text_opt(r.change.as_ref());
    let c6 = value_text_opt(r.open.as_ref());
    let c7 = value_text_opt(r.high.as_ref());
    let c8 = value_text_opt(r.low.as_ref());
    let c9 = value_text_opt(r.prev_close.as_ref());
    let c10 = value_text_opt(r.volume.as_ref());
    let c11 = value_text_opt(r.turnover.as_ref());
    let c12 = value_text_opt(r.turnover_rate.as_ref());
    let c13 = value_text_opt(r.pe.as_ref());
    let c14 = value_text_opt(r.pb.as_ref());
    let c15 = value_text_opt(r.market_value.as_ref());
    let ghost want = seq![c0@, c1@, c2@, c3@, c4@, c5@, c6@, c7@, c8@, c9@, c10@, c11@, c12@, c13@, c14@, c15@];
    assert(want == quote_cells(*r));
    let mut cells: Vec<String> = Vec::new();
    cells.push(c0);
    cells.push(c1);
    cells.push(c2);
    cells.push(c3);
    cells.push(c4);
    cells.push(c5);
    cells.push(c6);
    cells.push(c7);
    cells.push(c8);
    cells.push(c9);
    cells.push(c10);
    cells.push(c11);
    cells.push(c12);
    cells.push(c13);
    cells.push(c14);
    cells.push(c15);
    assert(views(cells@) =~= want);
    table_line(&cells)
}

/// The public-quote section for the source `source`.
pub fn render_realtime(source: &str, rows: &Vec<EastmoneyQuoteRow>) -> (r: String)
    ensures
        r@ == realtime_text(source@, rows@),
{
    let label = eastmoney_quote_source_label(source);
    let mut out = owned("## A股市场快照 · ");
    push_str(&mut out, label);
    push_str(&mut out, "\n\n");
    push_str(
        &mut out,
        "| 代码 | 名称 | 更新时间 | 最新价 | 涨跌幅% | 涨跌额 | 今开 | 最高 | 最低 | 昨收 | 成交量(手) | 成交额(元) | 换手率% | PE(动) | PB | 总市值(元) |\n",
    );
    push_str(&mut out, "|---|---|---|---:|---:|---:|---:|---:|---:|---:|---:|---:|---:|---:|---:|---:|\n");
    if rows.len() == 0 {
        push_str(&mut out, "| - | - | - | - | - | - | - | - | - | - | - | - | - | - | - | - |\n");
        push_str(&mut out, "\n_当前公开行情来源没有返回记录；这是有效空结果，不代表该股票不交易。_\n");
    } else {
        let ghost head = out@;
        let mut i: usize = 0;
        while i < rows.len()
            invariant
                i <= rows.len(),
                out@ == head + quote_lines(rows@.take(i as int)),
            decreases rows.len() - i,
        {
            assert(rows@.take(i + 1).drop_last() =~= rows@.take(i as int));
            push_str(&mut out, quote_line(&rows[i]).as_str());
            i = i + 1;
        }
        assert(rows@.take(rows.len() as int) =~= rows@);
    }
    push_str(&mut out, "\n_来源: 东方财富公开行情；当前口径：");
    push_str(&mut out, label);
    push_str(&mut out, "。按公开延迟/近实时快照处理，不要与 Tushare 最近收盘字段混作同一口径。_\n");
    out
}

/// The ids of the codes for one public-quote request, comma-joined; an
/// error for the first code without an A-share suffix.
pub open spec fn secids_of(codes: Seq<Seq<char>>) -> Option<Seq<Seq<char>>>
    decreases codes.len(),
{
    if codes.len() == 0 {
        Some(Seq::empty())
    } else {
        match (secids_of(codes.drop_last()), secid_of(upper_case(trim(codes.last())))) {
            (Some(prev), Some(id)) => Some(prev.push(id)),
            _ => None,
        }
    }
}

/// The `secids` parameter of a public-quote request.
pub fn quote_secids(codes: &Vec<String>) -> (r: Result<String, String>)
    ensures
        match r {
            Ok(s) => secids_of(views(codes@)) matches Some(ids) && s@ == join(ids, ","@),
            Err(e) => secids_of(views(codes@)) is None
                && e@ == "Eastmoney realtime quote expects A-share ts_code with .SH, .SZ, or .BJ suffix"@,
        },
{
    let mut ids: Vec<String> = Vec::new();
    let mut i: usize = 0;
    while i < codes.len()
        invariant
            i <= codes.len(),
            secids_of(views(codes@).take(i as int)) == Some(views(ids@)),
        decreases codes.len() - i,
    {
        assert(views(codes@).take(i + 1).drop_last() =~= views(codes@).take(i as int));
        assert(views(codes@).take(i + 1).last() == codes@[i as int]@);
        match eastmoney_secid(codes[i].as_str()) {
            Ok(id) => {
                let ghost before = views(ids@);
                let ghost idv = id@;
                ids.push(id);
                assert(views(ids@) =~= before.push(idv));
            },
            Err(e) => {
                proof {
                    let mut k: int = i + 1;
                    assert(secids_of(views(codes@).take(i + 1)) is None);
                    lemma_secids_none_extends(views(codes@), i + 1);
                    assert(views(codes@).take(codes@.len() as int) =~= views(codes@));
                }
                return Err(e);
            },
        }
        i = i + 1;
    }
    assert(views(codes@).take(codes.len() as int) =~= views(codes@));
    Ok(join_strings(&ids, ","))
}

/// Once a prefix has a code without an A-share suffix, every longer
/// prefix has one too.
proof fn lemma_secids_none_extends(codes: Seq<Seq<char>>, k: int)
    requires
        0 <= k <= codes.len(),
        secids_of(codes.take(k)) is None,
    ensures
        secids_of(codes.take(codes.len() as int)) is None,
    decreases codes.len() - k,
{
    if k < codes.len() {
        assert(codes.take(k + 1).drop_last() =~= codes.take(k));
        lemma_secids_none_extends(codes, k + 1);
    }
}

/// The error a public-quote reply stands for unless its `rc` is zero.
pub fn quote_rc_error(rc: Option<i64>, message: &Option<String>, msg: &Option<String>) -> (r: Option<
    String,
>)
    ensures
        match rc {
            Some(0) => r is None,
            _ => r matches Some(e) && e@ == "Eastmoney quote returned rc="@
                + crate::get_a_share_industry_context::debug_opt_i64(rc) + ": "@ + match (if crate::get_a_share_industry_context::clean_dash(
                opt_view(*message),
            ) is Some {
                crate::get_a_share_industry_context::clean_dash(opt_view(*message))
            } else {
                crate::get_a_share_industry_context::clean_dash(opt_view(*msg))
            }) {
                Some(m) => m,
                None => "unknown error"@,
            },
        },
{
    if rc == Some(0i64) {
        return None;
    }
    let mut out = owned("Eastmoney quote returned rc=");
    match rc {
        Some(n) => {
            push_str(&mut out, "Some(");
            push_str(&mut out, fmt_i64(n).as_str());
            push_str(&mut out, ")");
        },
        None => push_str(&mut out, "None"),
    }
    push_str(&mut out, ": ");
    match crate::get_a_share_industry_context::message_text(message, msg) {
        Some(m) => push_str(&mut out, m.as_str()),
        None => push_str(&mut out, "unknown error"),
    }
    Some(out)
}

/// The note appended when codes were left out.
pub open spec fn limit_note(truncated_count: usize) -> Seq<char> {
    if truncated_count > 0 {
        "\n_Limit note: tool returned the first 20 tickers and omitted "@ + decimal(truncated_count as nat)
            + "; split the request if the omitted names matter._"@
    } else {
        Seq::empty()
    }
}

/// The reply: the sections joined by newlines, then the limit note.
pub fn render_snapshot(sections: &Vec<String>, truncated_count: usize) -> (r: String)
    ensures
        r@ == join(views(sections@), "\n"@) + limit_note(truncated_count),
{
    let mut out = join_strings(sections, "\n");
    if truncated_count > 0 {
        push_str(&mut out, "\n_Limit note: tool returned the first 20 tickers and omitted ");
        push_str(&mut out, fmt_u64(truncated_count as u64).as_str());
        push_str(&mut out, "; split the request if the omitted names matter._");
    }
    out
}


/// `freshness` turns on the sections it names: `both` is the union of
/// `latest_close` and `realtime`, which turn on one section each, and the
/// default is the latest close alone.
pub proof fn lemma_freshness_turns_on_its_sections(args: Json, r: SnapshotArgs)
    requires
        snapshot_args_ok(args, r),
    ensures
        arg_str(args, "freshness"@) == Some("both"@) ==> r.include_latest_close && r.include_realtime,
        arg_str(args, "freshness"@) == Some("realtime"@) ==> !r.include_latest_close && r.include_realtime,
        arg_str(args, "freshness"@) == Some("latest_close"@) ==> r.include_latest_close && !r.include_realtime,
        arg_str(args, "freshness"@) is None ==> r.include_latest_close && !r.include_realtime,
{
    reveal_strlit("both");
    reveal_strlit("realtime");
    reveal_strlit("latest_close");
    assert(("both"@)[0] != ("realtime"@)[0]);
    assert(("both"@)[0] != ("latest_close"@)[0]);
    assert(("realtime"@)[0] != ("latest_close"@)[0]);
}

} // verus!
