//! China index context: profile, recent quotes, valuation and
//! constituent weights of an index, or a profile sample of a market;
//! Tonghuashun (`.TI`) indices use their own sources.
use vstd::prelude::*;

use crate::get_a_share_research_sources::{clean, compact, compact_text, opt_view, upper_arg, upper_arg_exec};
use crate::json::{arg_array, arg_str, arg_u64, get_array, get_str, get_u64, str_items, str_items_exec, Json};
use crate::table::{cell_text, first_n_rows, rows_text, Table};
use crate::text::{
    decimal, ends_with, eq_ignore_ascii_case, fmt_date, fmt_date_str, fmt_u64, owned, push_str,
    str_ends_with, str_eq, str_eq_ignore_ascii_case, to_upper, trim, upper_case, views,
};

verus! {

/// Rows a section lists when the call names no limit.
pub const DEFAULT_LIMIT: usize = 8;

/// Most rows a section lists.
pub const MAX_LIMIT: usize = 30;

/// The index market a code implies from its suffix.
pub open spec fn inferred_market(index_code: Option<Seq<char>>) -> Seq<char> {
    match index_code {
        Some(code) => if ends_with(code, ".TI"@) {
            "THS"@
        } else if ends_with(code, ".SI"@) {
            "SW"@
        } else if ends_with(code, ".CSI"@) {
            "CSI"@
        } else if ends_with(code, ".SZ"@) {
            "SZSE"@
        } else if ends_with(code, ".SH"@) {
            "SSE"@
        } else {
            "CSI"@
        },
        None => "CSI"@,
    }
}

/// `inferred_market` of a code.
pub fn infer_market(index_code: Option<&str>) -> (r: &'static str)
    ensures
        r@ == inferred_market(match index_code {
            Some(c) => Some(c@),
            None => None,
        }),
{
    match index_code {
        Some(code) => if str_ends_with(code, ".TI") {
            "THS"
        } else if str_ends_with(code, ".SI") {
            "SW"
        } else if str_ends_with(code, ".CSI") {
            "CSI"
        } else if str_ends_with(code, ".SZ") {
            "SZSE"
        } else if str_ends_with(code, ".SH") {
            "SSE"
        } else {
            "CSI"
        },
        None => "CSI",
    }
}

/// A Tonghuashun index: the market is `THS` in any letter case, or the
/// code ends in `.TI`.
pub open spec fn ths_index(index_code: Option<Seq<char>>, market: Seq<char>) -> bool {
    eq_ignore_ascii_case(market, "THS"@) || match index_code {
        Some(code) => ends_with(code, ".TI"@),
        None => false,
    }
}

/// `ths_index` of a code and market.
pub fn is_ths_index(index_code: Option<&str>, market: &str) -> (r: bool)
    ensures
        r == ths_index(
            match index_code {
                Some(c) => Some(c@),
                None => None,
            },
            market@,
        ),
{
    str_eq_ignore_ascii_case(market, "THS") || match index_code {
        Some(code) => str_ends_with(code, ".TI"),
        None => false,
    }
}

/// The sections a call asks for when it names none.
pub open spec fn default_sections(has_index_code: bool) -> Seq<Seq<char>> {
    if has_index_code {
        seq!["profile"@, "quote"@, "valuation"@, "weights"@]
    } else {
        seq!["profile"@]
    }
}

/// The sections a call asks for.
pub open spec fn sections_spec(args: Json, has_index_code: bool) -> Seq<Seq<char>> {
    match arg_array(args, "sections"@) {
        Some(items) => if str_items(items).len() > 0 {
            str_items(items)
        } else {
            default_sections(has_index_code)
        },
        None => default_sections(has_index_code),
    }
}

/// `sections_spec` of the call arguments.
pub fn sections(args: &Json, has_index_code: bool) -> (r: Vec<String>)
    ensures
        views(r@) == sections_spec(*args, has_index_code),
{
    match get_array(args, "sections") {
        Some(items) => {
            let v = str_items_exec(items);
            if v.len() > 0 {
                return v;
            }
        },
        None => {},
    }
    let mut d: Vec<String> = Vec::new();
    d.push(owned("profile"));
    if has_index_code {
        d.push(owned("quote"));
        d.push(owned("valuation"));
        d.push(owned("weights"));
    }
    assert(views(d@) =~= default_sections(has_index_code));
    d
}

/// Rows per section: the call's `limit` kept within `1..=30`, else eight.
pub open spec fn limit_spec(args: Json) -> usize {
    match arg_u64(args, "limit"@) {
        Some(n) => if n < 1 {
            1
        } else if n > MAX_LIMIT {
            MAX_LIMIT
        } else {
            n as usize
        },
        None => DEFAULT_LIMIT,
    }
}

/// `limit_spec` of the call arguments.
pub fn limit(args: &Json) -> (r: usize)
    ensures
        r == limit_spec(*args),
{
    match get_u64(args, "limit") {
        Some(n) => if n < 1 {
            1
        } else if n > 30 {
            MAX_LIMIT
        } else {
            n as usize
        },
        None => DEFAULT_LIMIT,
    }
}

/// A string value of the JSON model.
fn json_string(s: &str) -> (r: Json)
    ensures
        r matches Json::String(t) && t@ == s@,
{
    Json::String(owned(s))
}

/// The query of an index-profile request: the market, and the code when
/// there is one.
pub open spec fn index_basic_params_ok(index_code: Option<Seq<char>>, market: Seq<char>, r: Json) -> bool {
    match r {
        Json::Object(members) => {
            &&& members@.len() == if index_code is Some { 2int } else { 1int }
            &&& members@[0].0@ == "market"@
            &&& members@[0].1 matches Json::String(m) && m@ == market
            &&& index_code matches Some(code) ==> {
                &&& members@[1].0@ == "ts_code"@
                &&& members@[1].1 matches Json::String(c) && c@ == code
            }
        },
        _ => false,
    }
}

/// The query of an index-profile request.
pub fn index_basic_params(index_code: Option<&str>, market: &str) -> (r: Json)
    ensures
        index_basic_params_ok(
            match index_code {
                Some(c) => Some(c@),
                None => None,
            },
            market@,
            r,
        ),
{
    let mut members: Vec<(String, Json)> = Vec::new();
    members.push((owned("market"), json_string(market)));
    match index_code {
        Some(code) => members.push((owned("ts_code"), json_string(code))),
        None => {},
    }
    Json::Object(members)
}

/// The query of a Tonghuashun index-profile request: the code, or the
/// normal-index type `N` without one.
pub open spec fn ths_index_params_ok(index_code: Option<Seq<char>>, r: Json) -> bool {
    match r {
        Json::Object(members) => {
            &&& members@.len() == 1
            &&& match index_code {
                Some(code) => members@[0].0@ == "ts_code"@ && (members@[0].1 matches Json::String(c)
                    && c@ == code),
                None => members@[0].0@ == "type"@ && (members@[0].1 matches Json::String(t) && t@
                    == "N"@),
            }
        },
        _ => false,
    }
}

/// The query of a Tonghuashun index-profile request.
pub fn ths_index_params(index_code: Option<&str>) -> (r: Json)
    ensures
        ths_index_params_ok(
            match index_code {
                Some(c) => Some(c@),
                None => None,
            },
            r,
        ),
{
    let mut members: Vec<(String, Json)> = Vec::new();
    match index_code {
        Some(code) => members.push((owned("ts_code"), json_string(code))),
        None => members.push((owned("type"), json_string("N"))),
    }
    Json::Object(members)
}

/// The market argument: trimmed and upper-cased when non-blank, else the
/// market the code implies.
pub open spec fn market_spec(args: Json, index_code: Option<Seq<char>>) -> Seq<char> {
    match clean(arg_str(args, "market"@)) {
        Some(m) => upper_case(m),
        None => inferred_market(index_code),
    }
}

/// The arguments of an index-context call.
pub struct IndexArgs {
    pub index_code: Option<String>,
    pub market: String,
    pub is_ths: bool,
    pub sections: Vec<String>,
    pub limit: usize,
}

/// Reads the arguments of an index-context call; without a code only the
/// profile section can be asked for.
pub fn parse_index_args(args: &Json) -> (r: Result<IndexArgs, String>)
    ensures
        ({
            let code = upper_arg(arg_str(*args, "index_code"@));
            let secs = sections_spec(*args, code is Some);
            match r {
                Ok(a) => {
                    &&& opt_view(a.index_code) == code
                    &&& a.market@ == market_spec(*args, code)
                    &&& a.is_ths == ths_index(code, a.market@)
                    &&& a.limit == limit_spec(*args)
                    &&& views(a.sections@) == secs
                    &&& code is None ==> forall|i: int| 0 <= i < secs.len() ==> secs[i] == "profile"@
                },
                Err(e) => {
                    &&& code is None
                    &&& exists|i: int| 0 <= i < secs.len() && secs[i] != "profile"@
                    &&& e@ == "index_code is required for quote/valuation/weights"@
                },
            }
        }),
{
    let index_code = upper_arg_exec(get_str(args, "index_code"));
    let market = match crate::get_a_share_research_sources::clean_opt(get_str(args, "market")) {
        Some(m) => to_upper(m.as_str()),
        None => match &index_code {
            Some(c) => owned(infer_market(Some(c.as_str()))),
            None => owned(infer_market(None)),
        },
    };
    let is_ths = match &index_code {
        Some(c) => is_ths_index(Some(c.as_str()), market.as_str()),
        None => is_ths_index(None, market.as_str()),
    };
    let secs = sections(args, index_code.is_some());
    let limit = limit(args);
    if index_code.is_none() {
        let mut i: usize = 0;
        while i < secs.len()
            invariant
                i <= secs.len(),
                index_code is None,
                opt_view(index_code) == upper_arg(arg_str(*args, "index_code"@)),
                views(secs@) == sections_spec(*args, false),
                forall|k: int| 0 <= k < i ==> views(secs@)[k] == "profile"@,
            decreases secs.len() - i,
        {
            if !str_eq(secs[i].as_str(), "profile") {
                assert(views(secs@)[i as int] != "profile"@);
                return Err(owned("index_code is required for quote/valuation/weights"));
            }
            i = i + 1;
        }
    }
    Ok(IndexArgs { index_code, market, is_ths, sections: secs, limit })
}

/// The heading of the reply.
pub open spec fn index_heading(index_code: Option<Seq<char>>, market: Seq<char>) -> Seq<char> {
    match index_code {
        Some(code) => "## 中国指数上下文 · "@ + code + "\n\n"@,
        None => "## 中国指数池样本 · market="@ + market + "\n\n"@,
    }
}

/// The heading of the reply.
pub fn index_heading_text(index_code: Option<&str>, market: &str) -> (r: String)
    ensures
        r@ == index_heading(
            match index_code {
                Some(c) => Some(c@),
                None => None,
            },
            market@,
        ),
{
    match index_code {
        Some(code) => {
            let mut out = owned("## 中国指数上下文 · ");
            push_str(&mut out, code);
            push_str(&mut out, "\n\n");
            out
        },
        None => {
            let mut out = owned("## 中国指数池样本 · market=");
            push_str(&mut out, market);
            push_str(&mut out, "\n\n");
            out
        },
    }
}

/// The valuation section of a Tonghuashun index, which has none.
pub const THS_VALUATION_TEXT: &'static str = "### 规模与换手 · 同花顺指数行情\n- 当前同花顺指数没有独立估值口径；已在行情段返回总市值、流通市值和换手率。\n\n";

/// The weights section of a Tonghuashun index, which are not offered.
pub const THS_WEIGHTS_TEXT: &'static str = "### 权重/成分 · 同花顺指数\n- 当前工具未承诺同花顺指数成分权重。需要成分时，用普通指数权重、行业工具或后续接入同花顺成分来源。\n\n";

/// The closing caveat of the reply.
pub const INDEX_CAVEAT: &'static str = "_Caveat: 指数工具给出 benchmark/行业/组合上下文，不直接生成交易结论。若用于 ETF 分析，应继续结合 ETF 费率、跟踪误差、流动性和折溢价。_";

// ---------------------------------------------------------------------
// Sections
// ---------------------------------------------------------------------
/// Label of an index source api.
pub open spec fn source_label(api: Seq<char>) -> Seq<char> {
    if api == "index_basic"@ {
        "指数资料"@
    } else if api == "ths_index"@ {
        "同花顺指数资料"@
    } else if api == "index_daily"@ {
        "指数日频行情"@
    } else if api == "ths_daily"@ {
        "同花顺指数行情"@
    } else if api == "index_dailybasic"@ {
        "指数估值与成交"@
    } else if api == "index_weight"@ {
        "指数成分权重"@
    } else {
        "结构化指数来源"@
    }
}

/// `source_label` of an api.
pub fn index_source_label(api: &str) -> (r: &'static str)
    ensures
        r@ == source_label(api@),
{
    if str_eq(api, "index_basic") {
        "指数资料"
    } else if str_eq(api, "ths_index") {
        "同花顺指数资料"
    } else if str_eq(api, "index_daily") {
        "指数日频行情"
    } else if str_eq(api, "ths_daily") {
        "同花顺指数行情"
    } else if str_eq(api, "index_dailybasic") {
        "指数估值与成交"
    } else if str_eq(api, "index_weight") {
        "指数成分权重"
    } else {
        "结构化指数来源"
    }
}

/// The heading of a section.
pub open spec fn header_text(title: Seq<char>, api: Seq<char>, rows: usize) -> Seq<char> {
    "### "@ + title + " · "@ + source_label(api) + " · "@ + decimal(rows as nat) + "条\n"@
}

/// `header_text` of a section.
pub fn section_header(title: &str, api: &str, rows: usize) -> (r: String)
    ensures
        r@ == header_text(title@, api@, rows),
{
    let mut out = owned("### ");
    push_str(&mut out, title);
    push_str(&mut out, " · ");
    push_str(&mut out, index_source_label(api));
    push_str(&mut out, " · ");
    push_str(&mut out, fmt_u64(rows as u64).as_str());
    push_str(&mut out, "条\n");
    out
}

/// The sections of an index reply; profile and quote differ for
/// Tonghuashun indices.
#[derive(PartialEq, Eq, Structural, Clone, Copy)]
pub enum IndexSection {
    Profile { ths: bool },
    Quote { ths: bool },
    Valuation,
    Weights,
}

/// Title, api and empty-result line of a section.
pub open spec fn section_meta(k: IndexSection) -> (Seq<char>, Seq<char>, Seq<char>) {
    match k {
        IndexSection::Profile { ths } => ("指数资料"@, if ths { "ths_index"@ } else { "index_basic"@ }, "- No index profile rows returned. Check index_code/market.\n\n"@),
        IndexSection::Quote { ths } => ("近期表现"@, if ths { "ths_daily"@ } else { "index_daily"@ }, "- No index quote rows returned.\n\n"@),
        IndexSection::Valuation => ("估值与成交"@, "index_dailybasic"@, "- No valuation/basic rows returned.\n\n"@),
        IndexSection::Weights => ("成分权重"@, "index_weight"@, "- No constituent weight rows returned.\n\n"@),
    }
}

/// How many rows a section lists.
pub open spec fn section_take(k: IndexSection, limit: usize) -> int {
    match k {
        IndexSection::Profile { .. } => limit as int,
        IndexSection::Weights => 15,
        _ => 8,
    }
}

/// The line of one row of a section.
pub open spec fn section_line(k: IndexSection, f: Seq<String>, row: Seq<Json>) -> Seq<char> {
    let t = |name: Seq<char>| cell_text(f, row, name);
    match k {
        IndexSection::Profile { ths } => if ths {
            "- "@ + t("ts_code"@) + " "@ + t("name"@) + " · 成分数="@ + t("count"@) + " · exchange="@
                + t("exchange"@) + " · list="@ + fmt_date(t("list_date"@)) + "\n"@
        } else {
            "- "@ + t("ts_code"@) + " "@ + t("name"@) + " · "@ + t("category"@) + " · 发布方="@ + t(
                "publisher"@,
            ) + " · 基日="@ + fmt_date(t("base_date"@)) + " · 基点="@ + t("base_point"@) + " · 权重="@
                + t("weight_rule"@) + "\n  "@ + compact(t("desc"@), 120) + "\n"@
        },
        IndexSection::Quote { ths } => "- "@ + fmt_date(t("trade_date"@)) + " · close="@ + t("close"@)
            + " · pct="@ + t(if ths { "pct_change"@ } else { "pct_chg"@ }) + "% · amount/vol="@ + (if ths {
            t("vol"@)
        } else {
            t("amount"@)
        }) + (if ths {
            " · turnover="@ + t("turnover_rate"@) + " · total_mv="@ + t("total_mv"@)
        } else {
            Seq::empty()
        }) + "\n"@,
        IndexSection::Valuation => "- "@ + fmt_date(t("trade_date"@)) + " · PE="@ + t("pe"@)
            + " · PE_TTM="@ + t("pe_ttm"@) + " · PB="@ + t("pb"@) + " · turnover="@ + t(
            "turnover_rate"@,
        ) + " · total_mv="@ + t("total_mv"@) + "\n"@,
        IndexSection::Weights => "- "@ + fmt_date(t("trade_date"@)) + " · "@ + t("con_code"@)
            + " · weight="@ + t("weight"@) + "%\n"@,
    }
}

/// The markdown of a section.
pub open spec fn section_text(k: IndexSection, table: Table, limit: usize) -> Seq<char> {
    let (title, api, empty) = section_meta(k);
    header_text(title, api, table.rows@.len() as usize) + if table.rows@.len() == 0 {
        empty
    } else {
        rows_text(
            first_n_rows(table.rows@, section_take(k, limit)),
            |row: Seq<Json>| section_line(k, table.fields@, row),
        ) + "\n"@
    }
}

/// Appends `a` then `b`.
fn push2(out: &mut String, a: &str, b: &str)
    ensures
        final(out)@ == old(out)@ + a@ + b@,
{
    push_str(out, a);
    push_str(out, b);
}

/// The line of one row of a section.
pub fn section_line_exec(k: IndexSection, table: &Table, row: &[Json]) -> (r: String)
    ensures
        r@ == section_line(k, table.fields@, row@),
{
    let mut out = owned("- ");
    match k {
        IndexSection::Profile { ths } => {
            if ths {
                push2(&mut out, table.text(row, "ts_code").as_str(), " ");
                push2(&mut out, table.text(row, "name").as_str(), " · 成分数=");
                push2(&mut out, table.text(row, "count").as_str(), " · exchange=");
                push2(&mut out, table.text(row, "exchange").as_str(), " · list=");
                push2(&mut out, fmt_date_str(table.text(row, "list_date").as_str()).as_str(), "\n");
            } else {
                push2(&mut out, table.text(row, "ts_code").as_str(), " ");
                push2(&mut out, table.text(row, "name").as_str(), " · ");
                push2(&mut out, table.text(row, "category").as_str(), " · 发布方=");
                push2(&mut out, table.text(row, "publisher").as_str(), " · 基日=");
                push2(&mut out, fmt_date_str(table.text(row, "base_date").as_str()).as_str(), " · 基点=");
                push2(&mut out, table.text(row, "base_point").as_str(), " · 权重=");
                push2(&mut out, table.text(row, "weight_rule").as_str(), "\n  ");
                push2(&mut out, compact_text(table.text(row, "desc").as_str(), 120).as_str(), "\n");
            }
        },
        IndexSection::Quote { ths } => {
            push2(&mut out, fmt_date_str(table.text(row, "trade_date").as_str()).as_str(), " · close=");
            push2(&mut out, table.text(row, "close").as_str(), " · pct=");
            let pct_field = if ths {
                "pct_change"
            } else {
                "pct_chg"
            };
            push2(&mut out, table.text(row, pct_field).as_str(), "% · amount/vol=");
            if ths {
                push_str(&mut out, table.text(row, "vol").as_str());
                push2(&mut out, " · turnover=", table.text(row, "turnover_rate").as_str());
                push2(&mut out, " · total_mv=", table.text(row, "total_mv").as_str());
            } else {
                push_str(&mut out, table.text(row, "amount").as_str());
            }
            push_str(&mut out, "\n");
        },
        IndexSection::Valuation => {
            push2(&mut out, fmt_date_str(table.text(row, "trade_date").as_str()).as_str(), " · PE=");
            push2(&mut out, table.text(row, "pe").as_str(), " · PE_TTM=");
            push2(&mut out, table.text(row, "pe_ttm").as_str(), " · PB=");
            push2(&mut out, table.text(row, "pb").as_str(), " · turnover=");
            push2(&mut out, table.text(row, "turnover_rate").as_str(), " · total_mv=");
            push2(&mut out, table.text(row, "total_mv").as_str(), "\n");
        },
        IndexSection::Weights => {
            push2(&mut out, fmt_date_str(table.text(row, "trade_date").as_str()).as_str(), " · ");
            push2(&mut out, table.text(row, "con_code").as_str(), " · weight=");
            push2(&mut out, table.text(row, "weight").as_str(), "%\n");
        },
    }
    out
}

/// Title, api and empty-result line of a section.
fn section_meta_exec(k: IndexSection) -> (r: (&'static str, &'static str, &'static str))
    ensures
        (r.0@, r.1@, r.2@) == section_meta(k),
{
    match k {
        IndexSection::Profile { ths } => ("指数资料", if ths { "ths_index" } else { "index_basic" }, "- No index profile rows returned. Check index_code/market.\n\n"),
        IndexSection::Quote { ths } => ("近期表现", if ths { "ths_daily" } else { "index_daily" }, "- No index quote rows returned.\n\n"),
        IndexSection::Valuation => ("估值与成交", "index_dailybasic", "- No valuation/basic rows returned.\n\n"),
        IndexSection::Weights => ("成分权重", "index_weight", "- No constituent weight rows returned.\n\n"),
    }
}

/// The lines of the rows a section lists.
fn section_lines(k: IndexSection, table: &Table, take: usize) -> (r: String)
    ensures
        r@ == rows_text(
            first_n_rows(table.rows@, take as int),
            |row: Seq<Json>| section_line(k, table.fields@, row),
        ),
{
    let n = if take < table.rows.len() {
        take
    } else {
        table.rows.len()
    };
    let ghost f = |row: Seq<Json>| section_line(k, table.fields@, row);
    assert(first_n_rows(table.rows@, take as int) =~= table.rows@.take(n as int));
    let mut out = String::new();
    let mut i: usize = 0;
    while i < n
        invariant
            i <= n,
            n <= table.rows@.len(),
            f == (|row: Seq<Json>| section_line(k, table.fields@, row)),
            out@ == rows_text(table.rows@.take(i as int), f),
        decreases n - i,
    {
        assert(table.rows@.take(i + 1).drop_last() =~= table.rows@.take(i as int));
        push_str(&mut out, section_line_exec(k, table, table.rows[i].as_slice()).as_str());
        i = i + 1;
    }
    out
}

/// The markdown of a section.
pub fn render_section(k: IndexSection, table: &Table, limit: usize) -> (r: String)
    ensures
        r@ == section_text(k, *table, limit),
{
    let (title, api, empty) = section_meta_exec(k);
    let mut out = section_header(title, api, table.rows.len());
    if table.rows.len() == 0 {
        push_str(&mut out, empty);
        return out;
    }
    let take: usize = match k {
        IndexSection::Profile { .. } => limit,
        IndexSection::Weights => 15,
        _ => 8,
    };
    push_str(&mut out, section_lines(k, table, take).as_str());
    push_str(&mut out, "\n");
    out
}

/// The index-profile section.
pub fn render_profile(table: &Table, is_ths: bool, limit: usize) -> (r: String)
    ensures
        r@ == section_text(IndexSection::Profile { ths: is_ths }, *table, limit),
{
    render_section(IndexSection::Profile { ths: is_ths }, table, limit)
}

/// The recent-quote section.
pub fn render_quote(table: &Table, is_ths: bool) -> (r: String)
    ensures
        r@ == section_text(IndexSection::Quote { ths: is_ths }, *table, 8),
{
    render_section(IndexSection::Quote { ths: is_ths }, table, 8)
}

/// The valuation section.
pub fn render_valuation(table: &Table) -> (r: String)
    ensures
        r@ == section_text(IndexSection::Valuation, *table, 8),
{
    render_section(IndexSection::Valuation, table, 8)
}

/// The constituent-weight section.
pub fn render_weights(table: &Table) -> (r: String)
    ensures
        r@ == section_text(IndexSection::Weights, *table, 8),
{
    render_section(IndexSection::Weights, table, 8)
}

} // verus!
