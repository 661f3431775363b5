//! China fund context: profile, exchange quote, NAV, holdings, shares,
//! managers and dividends of a fund, or a profile sample of a market.
use vstd::prelude::*;

use crate::get_a_share_research_sources::{
    clean, compact, compact_text, default_source_types, opt_view, upper_arg, upper_arg_exec,
};
use crate::json::{arg_array, arg_str, arg_u64, get_array, get_str, get_u64, str_items, str_items_exec, Json, JsonNumber};
use crate::table::{cell_text, first_n_rows, rows_text, Table};
use crate::text::{
    decimal, ends_with, fmt_date, fmt_date_str, fmt_u64, owned, push_str, str_ends_with, str_eq,
    to_upper, trim, trim_str, upper_case, views,
};

verus! {

/// Rows a section lists when the call names no limit.
pub const DEFAULT_LIMIT: usize = 8;

/// Most rows a section lists.
pub const MAX_LIMIT: usize = 30;

/// The fund market a code implies: `O` for an open-end `.OF` code, else
/// the exchange market `E`.
pub open spec fn inferred_market(fund_code: Option<Seq<char>>) -> Seq<char> {
    match fund_code {
        Some(code) => if ends_with(code, ".OF"@) {
            "O"@
        } else {
            "E"@
        },
        None => "E"@,
    }
}

/// `inferred_market` of a code.
pub fn infer_market(fund_code: Option<&str>) -> (r: &'static str)
    ensures
        r@ == inferred_market(match fund_code {
            Some(c) => Some(c@),
            None => None,
        }),
{
    match fund_code {
        Some(code) => if str_ends_with(code, ".OF") {
            "O"
        } else {
            "E"
        },
        None => "E",
    }
}

/// The sections a call asks for when it names none.
pub open spec fn default_sections(has_fund_code: bool) -> Seq<Seq<char>> {
    if has_fund_code {
        seq!["profile"@, "quote"@, "nav"@, "portfolio"@, "share"@, "manager"@, "dividend"@]
    } else {
        seq!["profile"@]
    }
}

/// The sections a call asks for: the strings of its `sections` list
/// when there are any, else the default for its code presence.
pub open spec fn sections_spec(args: Json, has_fund_code: bool) -> Seq<Seq<char>> {
    match arg_array(args, "sections"@) {
        Some(items) => if str_items(items).len() > 0 {
            str_items(items)
        } else {
            default_sections(has_fund_code)
        },
        None => default_sections(has_fund_code),
    }
}

/// `sections_spec` of the call arguments.
pub fn sections(args: &Json, has_fund_code: bool) -> (r: Vec<String>)
    ensures
        views(r@) == sections_spec(*args, has_fund_code),
{
    match get_array(args, "sections") {
        Some(items) => {
            let v = str_items_exec(items);
            if v.len() > 0 {
                return v;
            }
        },
        None => {},
    }
    let mut d: Vec<String> = Vec::new();
    d.push(owned("profile"));
    if has_fund_code {
        d.push(owned("quote"));
        d.push(owned("nav"));
        d.push(owned("portfolio"));
        d.push(owned("share"));
        d.push(owned("manager"));
        d.push(owned("dividend"));
    }
    assert(views(d@) =~= default_sections(has_fund_code));
    d
}

/// Rows per section: the call's `limit` kept within `1..=30`, else eight.
pub open spec fn limit_spec(args: Json) -> usize {
    match arg_u64(args, "limit"@) {
        Some(n) => if n < 1 {
            1
        } else if n > MAX_LIMIT {
            MAX_LIMIT
        } else {
            n as usize
        },
        None => DEFAULT_LIMIT,
    }
}

/// `limit_spec` of the call arguments.
pub fn limit(args: &Json) -> (r: usize)
    ensures
        r == limit_spec(*args),
{
    match get_u64(args, "limit") {
        Some(n) => if n < 1 {
            1
        } else if n > 30 {
            MAX_LIMIT
        } else {
            n as usize
        },
        None => DEFAULT_LIMIT,
    }
}

/// The market argument: trimmed and upper-cased when non-blank, else the
/// market the code implies.
pub open spec fn market_spec(args: Json, fund_code: Option<Seq<char>>) -> Seq<char> {
    match clean(arg_str(args, "market"@)) {
        Some(m) => upper_case(m),
        None => inferred_market(fund_code),
    }
}

/// A string value of the JSON model.
fn json_string(s: &str) -> (r: Json)
    ensures
        r matches Json::String(t) && t@ == s@,
{
    Json::String(owned(s))
}

/// The query of a fund-profile request: the market, and the code when
/// there is one.
pub open spec fn fund_basic_params_ok(fund_code: Option<Seq<char>>, market: Seq<char>, r: Json) -> bool {
    match r {
        Json::Object(members) => {
            &&& members@.len() == if fund_code is Some { 2int } else { 1int }
            &&& members@[0].0@ == "market"@
            &&& members@[0].1 matches Json::String(m) && m@ == market
            &&& fund_code matches Some(code) ==> {
                &&& members@[1].0@ == "ts_code"@
                &&& members@[1].1 matches Json::String(c) && c@ == code
            }
        },
        _ => false,
    }
}

/// The query of a fund-profile request.
pub fn fund_basic_params(fund_code: Option<&str>, market: &str) -> (r: Json)
    ensures
        fund_basic_params_ok(
            match fund_code {
                Some(c) => Some(c@),
                None => None,
            },
            market@,
            r,
        ),
{
    let mut members: Vec<(String, Json)> = Vec::new();
    members.push((owned("market"), json_string(market)));
    match fund_code {
        Some(code) => members.push((owned("ts_code"), json_string(code))),
        None => {},
    }
    Json::Object(members)
}

/// The arguments of a fund-context call.
pub struct FundArgs {
    pub fund_code: Option<String>,
    pub market: String,
    pub limit: usize,
    pub sections: Vec<String>,
}

/// Reads the arguments of a fund-context call; without a code only the
/// profile section can be asked for.
pub fn parse_fund_args(args: &Json) -> (r: Result<FundArgs, String>)
    ensures
        ({
            let code = upper_arg(arg_str(*args, "fund_code"@));
            let secs = sections_spec(*args, code is Some);
            match r {
                Ok(a) => {
                    &&& opt_view(a.fund_code) == code
                    &&& a.market@ == market_spec(*args, code)
                    &&& a.limit == limit_spec(*args)
                    &&& views(a.sections@) == secs
                    &&& code is None ==> forall|i: int| 0 <= i < secs.len() ==> secs[i] == "profile"@
                },
                Err(e) => {
                    &&& code is None
                    &&& exists|i: int| 0 <= i < secs.len() && secs[i] != "profile"@
                    &&& e@ == "fund_code is required for quote/nav/portfolio/share/manager/dividend"@
                },
            }
        }),
{
    let fund_code = upper_arg_exec(get_str(args, "fund_code"));
    let market = match crate::get_a_share_research_sources::clean_opt(get_str(args, "market")) {
        Some(m) => to_upper(m.as_str()),
        None => match &fund_code {
            Some(c) => owned(infer_market(Some(c.as_str()))),
            None => owned(infer_market(None)),
        },
    };
    let limit = limit(args);
    let secs = sections(args, fund_code.is_some());
    if fund_code.is_none() {
        let mut i: usize = 0;
        while i < secs.len()
            invariant
                i <= secs.len(),
                fund_code is None,
                opt_view(fund_code) == upper_arg(arg_str(*args, "fund_code"@)),
                views(secs@) == sections_spec(*args, false),
                forall|k: int| 0 <= k < i ==> views(secs@)[k] == "profile"@,
            decreases secs.len() - i,
        {
            if !str_eq(secs[i].as_str(), "profile") {
                assert(views(secs@)[i as int] != "profile"@);
                return Err(owned("fund_code is required for quote/nav/portfolio/share/manager/dividend"));
            }
            i = i + 1;
        }
    }
    Ok(FundArgs { fund_code, market, limit, sections: secs })
}

/// The heading of the reply.
pub open spec fn fund_heading(fund_code: Option<Seq<char>>, market: Seq<char>) -> Seq<char> {
    match fund_code {
        Some(code) => "## 中国基金上下文 · "@ + code + "\n\n"@,
        None => "## 中国基金池样本 · market="@ + market + "\n\n"@,
    }
}

/// The heading of the reply.
pub fn fund_heading_text(fund_code: Option<&str>, market: &str) -> (r: String)
    ensures
        r@ == fund_heading(
            match fund_code {
                Some(c) => Some(c@),
                None => None,
            },
            market@,
        ),
{
    match fund_code {
        Some(code) => {
            let mut out = owned("## 中国基金上下文 · ");
            push_str(&mut out, code);
            push_str(&mut out, "\n\n");
            out
        },
        None => {
            let mut out = owned("## 中国基金池样本 · market=");
            push_str(&mut out, market);
            push_str(&mut out, "\n\n");
            out
        },
    }
}

/// The closing caveat of the reply.
pub const FUND_CAVEAT: &'static str = "_Caveat: ETF/LOF 可用 `fund_daily` 看交易所行情；开放式基金通常以 NAV 为主。基金工具提供事实上下文，不替代组合适配性、流动性和费率分析。_";

// ---------------------------------------------------------------------
// Sections
// ---------------------------------------------------------------------
/// Label of a fund source api.
pub open spec fn source_label(api: Seq<char>) -> Seq<char> {
    if api == "fund_basic"@ {
        "基金资料"@
    } else if api == "fund_daily"@ {
        "交易所行情"@
    } else if api == "fund_nav"@ {
        "基金净值"@
    } else if api == "fund_portfolio"@ {
        "基金持仓"@
    } else if api == "fund_share"@ {
        "基金份额"@
    } else if api == "fund_manager"@ {
        "基金经理"@
    } else if api == "fund_div"@ {
        "基金分红"@
    } else {
        "结构化基金来源"@
    }
}

/// `source_label` of an api.
pub fn fund_source_label(api: &str) -> (r: &'static str)
    ensures
        r@ == source_label(api@),
{
    if str_eq(api, "fund_basic") {
        "基金资料"
    } else if str_eq(api, "fund_daily") {
        "交易所行情"
    } else if str_eq(api, "fund_nav") {
        "基金净值"
    } else if str_eq(api, "fund_portfolio") {
        "基金持仓"
    } else if str_eq(api, "fund_share") {
        "基金份额"
    } else if str_eq(api, "fund_manager") {
        "基金经理"
    } else if str_eq(api, "fund_div") {
        "基金分红"
    } else {
        "结构化基金来源"
    }
}

/// The heading of a section.
pub open spec fn header_text(title: Seq<char>, api: Seq<char>, rows: usize) -> Seq<char> {
    "### "@ + title + " · "@ + source_label(api) + " · "@ + decimal(rows as nat) + "条\n"@
}

/// `header_text` of a section.
pub fn section_header(title: &str, api: &str, rows: usize) -> (r: String)
    ensures
        r@ == header_text(title@, api@, rows),
{
    let mut out = owned("### ");
    push_str(&mut out, title);
    push_str(&mut out, " · ");
    push_str(&mut out, fund_source_label(api));
    push_str(&mut out, " · ");
    push_str(&mut out, fmt_u64(rows as u64).as_str());
    push_str(&mut out, "条\n");
    out
}

/// The sections of a fund reply.
#[derive(PartialEq, Eq, Structural, Clone, Copy)]
pub enum FundSection {
    Profile,
    Quote,
    Nav,
    Portfolio,
    Share,
    Manager,
    Dividend,
}

/// Title, api and empty-result line of a section.
pub open spec fn section_meta(k: FundSection) -> (Seq<char>, Seq<char>, Seq<char>) {
    match k {
        FundSection::Profile => ("基金资料"@, "fund_basic"@, "- 当前基金资料来源没有返回记录；请核验基金代码/市场，或把它作为数据缺口处理。\n\n"@),
        FundSection::Quote => ("交易所行情"@, "fund_daily"@, "- No exchange quote returned. For open-end funds, prefer NAV.\n\n"@),
        FundSection::Nav => ("NAV"@, "fund_nav"@, "- No NAV rows returned.\n\n"@),
        FundSection::Portfolio => ("持仓"@, "fund_portfolio"@, "- No portfolio rows returned.\n\n"@),
        FundSection::Share => ("份额"@, "fund_share"@, "- No share rows returned.\n\n"@),
        FundSection::Manager => ("基金经理"@, "fund_manager"@, "- No manager rows returned.\n\n"@),
        FundSection::Dividend => ("分红"@, "fund_div"@, "- No dividend rows returned.\n\n"@),
    }
}

/// How many rows a section lists: the call's limit for the profile,
/// twelve holdings, five managers, eight of anything else.
pub open spec fn section_take(k: FundSection, limit: usize) -> int {
    match k {
        FundSection::Profile => limit as int,
        FundSection::Portfolio => 12,
        FundSection::Manager => 5,
        _ => 8,
    }
}

/// The line of one row of a section.
pub open spec fn section_line(k: FundSection, f: Seq<String>, row: Seq<Json>) -> Seq<char> {
    let t = |name: Seq<char>| cell_text(f, row, name);
    match k {
        FundSection::Profile => "- "@ + t("ts_code"@) + " "@ + t("name"@) + " · "@ + t("fund_type"@)
            + " · 管理人="@ + t("management"@) + " · 基准="@ + compact(t("benchmark"@), 48) + " · 成立="@
            + fmt_date(t("found_date"@)) + " · 上市="@ + fmt_date(t("list_date"@)) + " · 费率="@ + t(
            "m_fee"@,
        ) + "/"@ + t("c_fee"@) + "\n"@,
        FundSection::Quote => "- "@ + fmt_date(t("trade_date"@)) + " · close="@ + t("close"@)
            + " · pct="@ + t("pct_chg"@) + "% · amount="@ + t("amount"@) + "\n"@,
        FundSection::Nav => "- "@ + fmt_date(t("ann_date"@)) + " · unit="@ + t("unit_nav"@)
            + " · accum="@ + t("accum_nav"@) + " · adj="@ + t("adj_nav"@) + "\n"@,
        FundSection::Portfolio => "- "@ + fmt_date(t("end_date"@)) + " · "@ + t("symbol"@) + " · 市值="@
            + t("mkv"@) + " · 占净值="@ + t("stk_mkv_ratio"@) + "% · 占流通="@ + t("stk_float_ratio"@)
            + "%\n"@,
        FundSection::Share => "- "@ + fmt_date(t("trade_date"@)) + " · fd_share="@ + t("fd_share"@)
            + "\n"@,
        FundSection::Manager => "- "@ + t("name"@) + " · "@ + fmt_date(t("begin_date"@)) + " → "@
            + fmt_date(t("end_date"@)) + " · "@ + t("edu"@) + " · "@ + compact(t("resume"@), 120)
            + "\n"@,
        FundSection::Dividend => "- "@ + fmt_date(t("ann_date"@)) + " · "@ + t("div_proc"@)
            + " · 每份="@ + t("div_cash"@) + " · 登记="@ + fmt_date(t("record_date"@)) + " · 支付="@
            + fmt_date(t("pay_date"@)) + "\n"@,
    }
}

/// The markdown of a section.
pub open spec fn section_text(k: FundSection, table: Table, limit: usize) -> Seq<char> {
    let (title, api, empty) = section_meta(k);
    header_text(title, api, table.rows@.len() as usize) + if table.rows@.len() == 0 {
        empty
    } else {
        rows_text(
            first_n_rows(table.rows@, section_take(k, limit)),
            |row: Seq<Json>| section_line(k, table.fields@, row),
        ) + "\n"@
    }
}

/// Appends `a` then `b`.
fn push2(out: &mut String, a: &str, b: &str)
    ensures
        final(out)@ == old(out)@ + a@ + b@,
{
    push_str(out, a);
    push_str(out, b);
}

/// The line of one row of a section.
pub fn section_line_exec(k: FundSection, table: &Table, row: &[Json]) -> (r: String)
    ensures
        r@ == section_line(k, table.fields@, row@),
{
    let mut out = owned("- ");
    match k {
        FundSection::Profile => {
            push2(&mut out, table.text(row, "ts_code").as_str(), " ");
            push2(&mut out, table.text(row, "name").as_str(), " · ");
            push2(&mut out, table.text(row, "fund_type").as_str(), " · 管理人=");
            push2(&mut out, table.text(row, "management").as_str(), " · 基准=");
            push2(&mut out, compact_text(table.text(row, "benchmark").as_str(), 48).as_str(), " · 成立=");
            push2(&mut out, fmt_date_str(table.text(row, "found_date").as_str()).as_str(), " · 上市=");
            push2(&mut out, fmt_date_str(table.text(row, "list_date").as_str()).as_str(), " · 费率=");
            push2(&mut out, table.text(row, "m_fee").as_str(), "/");
            push2(&mut out, table.text(row, "c_fee").as_str(), "\n");
        },
        FundSection::Quote => {
            push2(&mut out, fmt_date_str(table.text(row, "trade_date").as_str()).as_str(), " · close=");
            push2(&mut out, table.text(row, "close").as_str(), " · pct=");
            push2(&mut out, table.text(row, "pct_chg").as_str(), "% · amount=");
            push2(&mut out, table.text(row, "amount").as_str(), "\n");
        },
        FundSection::Nav => {
            push2(&mut out, fmt_date_str(table.text(row, "ann_date").as_str()).as_str(), " · unit=");
            push2(&mut out, table.text(row, "unit_nav").as_str(), " · accum=");
            push2(&mut out, table.text(row, "accum_nav").as_str(), " · adj=");
            push2(&mut out, table.text(row, "adj_nav").as_str(), "\n");
        },
        FundSection::Portfolio => {
            push2(&mut out, fmt_date_str(table.text(row, "end_date").as_str()).as_str(), " · ");
            push2(&mut out, table.text(row, "symbol").as_str(), " · 市值=");
            push2(&mut out, table.text(row, "mkv").as_str(), " · 占净值=");
            push2(&mut out, table.text(row, "stk_mkv_ratio").as_str(), "% · 占流通=");
            push2(&mut out, table.text(row, "stk_float_ratio").as_str(), "%\n");
        },
        FundSection::Share => {
            push2(&mut out, fmt_date_str(table.text(row, "trade_date").as_str()).as_str(), " · fd_share=");
            push2(&mut out, table.text(row, "fd_share").as_str(), "\n");
        },
        FundSection::Manager => {
            push2(&mut out, table.text(row, "name").as_str(), " · ");
            push2(&mut out, fmt_date_str(table.text(row, "begin_date").as_str()).as_str(), " → ");
            push2(&mut out, fmt_date_str(table.text(row, "end_date").as_str()).as_str(), " · ");
            push2(&mut out, table.text(row, "edu").as_str(), " · ");
            push2(&mut out, compact_text(table.text(row, "resume").as_str(), 120).as_str(), "\n");
        },
        FundSection::Dividend => {
            push2(&mut out, fmt_date_str(table.text(row, "ann_date").as_str()).as_str(), " · ");
            push2(&mut out, table.text(row, "div_proc").as_str(), " · 每份=");
            push2(&mut out, table.text(row, "div_cash").as_str(), " · 登记=");
            push2(&mut out, fmt_date_str(table.text(row, "record_date").as_str()).as_str(), " · 支付=");
            push2(&mut out, fmt_date_str(table.text(row, "pay_date").as_str()).as_str(), "\n");
        },
    }
    out
}

/// Title, api and empty-result line of a section.
fn section_meta_exec(k: FundSection) -> (r: (&'static str, &'static str, &'static str))
    ensures
        (r.0@, r.1@, r.2@) == section_meta(k),
{
    match k {
        FundSection::Profile => ("基金资料", "fund_basic", "- 当前基金资料来源没有返回记录；请核验基金代码/市场，或把它作为数据缺口处理。\n\n"),
        FundSection::Quote => ("交易所行情", "fund_daily", "- No exchange quote returned. For open-end funds, prefer NAV.\n\n"),
        FundSection::Nav => ("NAV", "fund_nav", "- No NAV rows returned.\n\n"),
        FundSection::Portfolio => ("持仓", "fund_portfolio", "- No portfolio rows returned.\n\n"),
        FundSection::Share => ("份额", "fund_share", "- No share rows returned.\n\n"),
        FundSection::Manager => ("基金经理", "fund_manager", "- No manager rows returned.\n\n"),
        FundSection::Dividend => ("分红", "fund_div", "- No dividend rows returned.\n\n"),
    }
}

/// The lines of the rows a section lists.
fn section_lines(k: FundSection, table: &Table, take: usize) -> (r: String)
    ensures
        r@ == rows_text(
            first_n_rows(table.rows@, take as int),
            |row: Seq<Json>| section_line(k, table.fields@, row),
        ),
{
    let n = if take < table.rows.len() {
        take
    } else {
        table.rows.len()
    };
    let ghost f = |row: Seq<Json>| section_line(k, table.fields@, row);
    assert(first_n_rows(table.rows@, take as int) =~= table.rows@.take(n as int));
    let mut out = String::new();
    let mut i: usize = 0;
    while i < n
        invariant
            i <= n,
            n <= table.rows@.len(),
            f == (|row: Seq<Json>| section_line(k, table.fields@, row)),
            out@ == rows_text(table.rows@.take(i as int), f),
        decreases n - i,
    {
        assert(table.rows@.take(i + 1).drop_last() =~= table.rows@.take(i as int));
        push_str(&mut out, section_line_exec(k, table, table.rows[i].as_slice()).as_str());
        i = i + 1;
    }
    out
}

/// The markdown of a section.
pub fn render_section(k: FundSection, table: &Table, limit: usize) -> (r: String)
    ensures
        r@ == section_text(k, *table, limit),
{
    let (title, api, empty) = section_meta_exec(k);
    let mut out = section_header(title, api, table.rows.len());
    if table.rows.len() == 0 {
        push_str(&mut out, empty);
        return out;
    }
    let take: usize = match k {
        FundSection::Profile => limit,
        FundSection::Portfolio => 12,
        FundSection::Manager => 5,
        _ => 8,
    };
    push_str(&mut out, section_lines(k, table, take).as_str());
    push_str(&mut out, "\n");
    out
}

/// The fund-profile section.
pub fn render_profile(table: &Table, limit: usize) -> (r: String)
    ensures
        r@ == section_text(FundSection::Profile, *table, limit),
{
    render_section(FundSection::Profile, table, limit)
}

/// The exchange-quote section.
pub fn render_quote(table: &Table) -> (r: String)
    ensures
        r@ == section_text(FundSection::Quote, *table, 8),
{
    render_section(FundSection::Quote, table, 8)
}

/// The NAV section.
pub fn render_nav(table: &Table) -> (r: String)
    ensures
        r@ == section_text(FundSection::Nav, *table, 8),
{
    render_section(FundSection::Nav, table, 8)
}

/// The holdings section.
pub fn render_portfolio(table: &Table) -> (r: String)
    ensures
        r@ == section_text(FundSection::Portfolio, *table, 8),
{
    render_section(FundSection::Portfolio, table, 8)
}

/// The share section.
pub fn render_share(table: &Table) -> (r: String)
    ensures
        r@ == section_text(FundSection::Share, *table, 8),
{
    render_section(FundSection::Share, table, 8)
}

/// The manager section.
pub fn render_manager(table: &Table) -> (r: String)
    ensures
        r@ == section_text(FundSection::Manager, *table, 8),
{
    render_section(FundSection::Manager, table, 8)
}

/// The dividend section.
pub fn render_dividend(table: &Table) -> (r: String)
    ensures
        r@ == section_text(FundSection::Dividend, *table, 8),
{
    render_section(FundSection::Dividend, table, 8)
}

} // verus!
