//! `stock_overview`: the headings, text sections and source bookkeeping of
//! its seven focuses. The price, valuation and share-count figures are
//! floating point and are rendered by the caller.
use vstd::prelude::*;

use crate::tools::{card_of, str_arg_or, summary_snippet, snippet, ToolUi, ResultArtifact};
use crate::tool_args::str_or;

use crate::coverage::{
    closing_lines, closing_text, coverage_reply, coverage_tail, json_at, lemma_head, member, str_at, text_member,
    Coverage,
};
use crate::tools::ToolOutcome;
use crate::json::Json;
use crate::text::{chars_of, owned, prefix, prefix_chars, push_str, str_eq, string_of, views};

verus! {

/// The heading of a reply of focus `focus` on the security `dotted`
/// (named `name` where the overview found its name); nothing for a focus
/// the tool does not know.
pub open spec fn focus_heading_of(focus: Seq<char>, dotted: Seq<char>, name: Seq<char>) -> Seq<char> {
    if focus == "overview"@ {
        "## "@ + name + " ("@ + dotted + ")\n\n"@
    } else if focus == "valuation"@ {
        "## "@ + dotted + " 估值\n\n"@
    } else if focus == "business"@ {
        "## "@ + dotted + " 主营业务构成 (by product)\n\n"@
    } else if focus == "holders"@ {
        "## "@ + dotted + " 股东结构\n\n"@
    } else if focus == "financial"@ {
        "## "@ + dotted + " 财报快照(最近 4 季度)\n\n"@
    } else if focus == "technical"@ {
        "## "@ + dotted + " 技术指标(原始数值)\n\n"@
    } else if focus == "corp_action"@ {
        "## "@ + dotted + " 业绩 / 披露日历\n\n"@
    } else {
        ""@
    }
}

/// `"## " + dotted + tail`.
fn titled(dotted: &str, tail: &str) -> (r: String)
    ensures
        r@ == "## "@ + dotted@ + tail@,
{
    let mut out = owned("## ");
    push_str(&mut out, dotted);
    push_str(&mut out, tail);
    out
}

/// `focus_heading_of` as a string.
pub fn focus_heading(focus: &str, dotted: &str, name: &str) -> (r: String)
    ensures
        r@ == focus_heading_of(focus@, dotted@, name@),
{
    if str_eq(focus, "overview") {
        let mut out = owned("## ");
        push_str(&mut out, name);
        push_str(&mut out, " (");
        push_str(&mut out, dotted);
        push_str(&mut out, ")\n\n");
        out
    } else if str_eq(focus, "valuation") {
        titled(dotted, " 估值\n\n")
    } else if str_eq(focus, "business") {
        titled(dotted, " 主营业务构成 (by product)\n\n")
    } else if str_eq(focus, "holders") {
        titled(dotted, " 股东结构\n\n")
    } else if str_eq(focus, "financial") {
        titled(dotted, " 财报快照(最近 4 季度)\n\n")
    } else if str_eq(focus, "technical") {
        titled(dotted, " 技术指标(原始数值)\n\n")
    } else if str_eq(focus, "corp_action") {
        titled(dotted, " 业绩 / 披露日历\n\n")
    } else {
        owned("")
    }
}

/// One announcement line: `- [date] title`.
pub open spec fn announcement_line(date: Seq<char>, title: Seq<char>) -> Seq<char> {
    "- ["@ + date + "] "@ + title + "\n"@
}

/// The lines of the first `n` announcements.
pub open spec fn announcement_lines_upto(anns: Seq<(String, String)>, n: int) -> Seq<char>
    decreases n,
{
    if n <= 0 {
        Seq::empty()
    } else {
        announcement_lines_upto(anns, n - 1) + announcement_line(anns[n - 1].0@, anns[n - 1].1@)
    }
}

/// The announcement section of the overview: its five most recent
/// announcements (dated, titled), nothing when there are none.
pub open spec fn announcements_section_of(anns: Seq<(String, String)>) -> Seq<char> {
    if anns.len() == 0 {
        ""@
    } else {
        "**最近 5 公告:**\n\n"@ + announcement_lines_upto(anns, if anns.len() < 5 { anns.len() as int } else { 5 })
    }
}

/// `announcements_section_of` as a string.
pub fn announcements_section(anns: &Vec<(String, String)>) -> (r: String)
    ensures
        r@ == announcements_section_of(anns@),
{
    if anns.len() == 0 {
        return owned("");
    }
    let n: usize = if anns.len() < 5 { anns.len() } else { 5 };
    let mut out = owned("**最近 5 公告:**\n\n");
    assert(out@ =~= "**最近 5 公告:**\n\n"@ + announcement_lines_upto(anns@, 0));
    let mut i: usize = 0;
    while i < n
        invariant
            n <= anns@.len(),
            i <= n,
            out@ == "**最近 5 公告:**\n\n"@ + announcement_lines_upto(anns@, i as int),
        decreases n - i,
    {
        push_str(&mut out, "- [");
        push_str(&mut out, anns[i].0.as_str());
        push_str(&mut out, "] ");
        push_str(&mut out, anns[i].1.as_str());
        push_str(&mut out, "\n");
        i = i + 1;
    }
    out
}

/// An optional text, or `-`.
pub open spec fn or_dash(o: Option<Seq<char>>) -> Seq<char> {
    match o {
        Some(s) => s,
        None => "-"@,
    }
}

/// The view of an optional string slice.
pub open spec fn opt_str_view(o: Option<&str>) -> Option<Seq<char>> {
    match o {
        Some(s) => Some(s@),
        None => None,
    }
}

/// An optional text, or `-`, as a string.
fn dash_or(o: Option<&str>) -> (r: String)
    ensures
        r@ == or_dash(opt_str_view(o)),
{
    match o {
        Some(s) => owned(s),
        None => owned("-"),
    }
}

/// The industry and region line of the overview.
pub open spec fn region_line_of(industry: Option<Seq<char>>, area: Option<Seq<char>>) -> Seq<char> {
    "**行业 / 地域:** "@ + or_dash(industry) + " / "@ + or_dash(area) + "\n\n"@
}

/// `region_line_of` as a string.
pub fn region_line(industry: Option<&str>, area: Option<&str>) -> (r: String)
    ensures
        r@ == region_line_of(opt_str_view(industry), opt_str_view(area)),
{
    let mut out = owned("**行业 / 地域:** ");
    let i = dash_or(industry);
    push_str(&mut out, i.as_str());
    push_str(&mut out, " / ");
    let a = dash_or(area);
    push_str(&mut out, a.as_str());
    push_str(&mut out, "\n\n");
    out
}

/// The company line of the overview: name, main business, the head
/// count where known (as the caller printed it), and the first 150
/// characters of the introduction where there is one.
pub open spec fn company_line_of(
    name: Seq<char>,
    main_business: Option<Seq<char>>,
    employees: Option<Seq<char>>,
    intro: Option<Seq<char>>,
) -> Seq<char> {
    let head = match employees {
        Some(e) => " | 员工 "@ + e + " 人"@,
        None => Seq::empty(),
    };
    let cut = match intro {
        Some(t) => prefix(t, 150),
        None => Seq::empty(),
    };
    let tail = if cut.len() > 0 {
        "\n\n> "@ + cut
    } else {
        Seq::empty()
    };
    "**公司:** "@ + name + " | 主营:"@ + or_dash(main_business) + head + tail + "\n\n"@
}

/// `company_line_of` as a string.
pub fn company_line(name: &str, main_business: Option<&str>, employees: Option<&str>, intro: Option<&str>) -> (r: String)
    ensures
        r@ == company_line_of(name@, opt_str_view(main_business), opt_str_view(employees), opt_str_view(intro)),
{
    let mut out = owned("**公司:** ");
    push_str(&mut out, name);
    push_str(&mut out, " | 主营:");
    let mb = dash_or(main_business);
    push_str(&mut out, mb.as_str());
    match employees {
        Some(e) => {
            push_str(&mut out, " | 员工 ");
            push_str(&mut out, e);
            push_str(&mut out, " 人");
        },
        None => {},
    }
    let cut: Vec<char> = match intro {
        Some(t) => {
            let tc = chars_of(t);
            prefix_chars(tc.as_slice(), 150)
        },
        None => Vec::new(),
    };
    if cut.len() > 0 {
        push_str(&mut out, "\n\n> ");
        let c = string_of(cut.as_slice());
        push_str(&mut out, c.as_str());
    }
    push_str(&mut out, "\n\n");
    out
}

/// The controller line of the holders focus.
pub fn controller_line(controller: &str) -> (r: String)
    ensures
        r@ == "**实控人 / 控股股东:** "@ + controller@ + "\n\n"@,
{
    let mut out = owned("**实控人 / 控股股东:** ");
    push_str(&mut out, controller);
    push_str(&mut out, "\n\n");
    out
}

/// The text member `key` of a row, or `-`.
pub open spec fn cell_or_dash(row: Json, key: Seq<char>) -> Seq<char> {
    match row.get_spec(key) {
        Some(v) => match v.str_spec() {
            Some(s) => s,
            None => "-"@,
        },
        None => "-"@,
    }
}

/// `cell_or_dash` as a string.
fn row_cell(row: &Json, key: &str) -> (r: String)
    ensures
        r@ == cell_or_dash(*row, key@),
{
    match row.get(key) {
        Some(v) => match v.as_str() {
            Some(s) => owned(s),
            None => owned("-"),
        },
        None => owned("-"),
    }
}

/// One disclosure row: period end, planned date, actual date.
pub open spec fn disclosure_row_of(row: Json) -> Seq<char> {
    "| "@ + cell_or_dash(row, "end_date"@) + " | "@ + cell_or_dash(row, "pre_date"@) + " | "@
        + cell_or_dash(row, "actual_date"@) + " |\n"@
}

/// The lines of the first `n` disclosure rows.
pub open spec fn disclosure_rows_upto(rows: Seq<Json>, n: int) -> Seq<char>
    decreases n,
{
    if n <= 0 {
        Seq::empty()
    } else {
        disclosure_rows_upto(rows, n - 1) + disclosure_row_of(rows[n - 1])
    }
}

/// The disclosure calendar of the corporate-action focus; nothing when
/// there are no rows.
pub open spec fn disclosure_section_of(rows: Seq<Json>) -> Seq<char> {
    if rows.len() == 0 {
        ""@
    } else {
        "\n### 下次披露(近 5 条)\n\n| 报告期 | 预计日 | 实际日 |\n|---|---|---|\n"@
            + disclosure_rows_upto(rows, rows.len() as int)
    }
}

/// `disclosure_section_of` as a string.
pub fn disclosure_section(rows: &Vec<Json>) -> (r: String)
    ensures
        r@ == disclosure_section_of(rows@),
{
    if rows.len() == 0 {
        return owned("");
    }
    let mut out = owned("\n### 下次披露(近 5 条)\n\n| 报告期 | 预计日 | 实际日 |\n|---|---|---|\n");
    assert(out@ =~= "\n### 下次披露(近 5 条)\n\n| 报告期 | 预计日 | 实际日 |\n|---|---|---|\n"@
        + disclosure_rows_upto(rows@, 0));
    let mut i: usize = 0;
    while i < rows.len()
        invariant
            i <= rows@.len(),
            out@ == "\n### 下次披露(近 5 条)\n\n| 报告期 | 预计日 | 实际日 |\n|---|---|---|\n"@
                + disclosure_rows_upto(rows@, i as int),
        decreases rows.len() - i,
    {
        push_str(&mut out, "| ");
        let e = row_cell(&rows[i], "end_date");
        push_str(&mut out, e.as_str());
        push_str(&mut out, " | ");
        let p = row_cell(&rows[i], "pre_date");
        push_str(&mut out, p.as_str());
        push_str(&mut out, " | ");
        let a = row_cell(&rows[i], "actual_date");
        push_str(&mut out, a.as_str());
        push_str(&mut out, " |\n");
        i = i + 1;
    }
    out
}

/// The source stamp a source adds when it answered.
pub open spec fn stamp_if(answered: bool, label: Seq<char>, today: Seq<char>) -> Seq<Seq<char>> {
    if answered {
        seq![label + " @ "@ + today]
    } else {
        Seq::empty()
    }
}

/// The missing dimension a source adds when it did not answer.
pub open spec fn missing_if(answered: bool, dimension: Seq<char>) -> Seq<Seq<char>> {
    if answered {
        Seq::empty()
    } else {
        seq![dimension]
    }
}

/// Records one source on `c`, in the form the two lists are read back.
fn note_source(c: &mut Coverage, answered: bool, label: &str, today: &str, dimension: &str)
    ensures
        views(final(c).sources@) == views(old(c).sources@) + stamp_if(answered, label@, today@),
        views(final(c).empty_dimensions@) == views(old(c).empty_dimensions@) + missing_if(answered, dimension@),
{
    let ghost s0 = views(c.sources@);
    let ghost d0 = views(c.empty_dimensions@);
    c.record(answered, label, today, owned(dimension));
    assert(views(c.sources@) =~= s0 + stamp_if(answered, label@, today@));
    assert(views(c.empty_dimensions@) =~= d0 + missing_if(answered, dimension@));
}

/// Records the three sources of the corporate-action focus, in order:
/// earnings forecasts, preliminary results and the disclosure calendar;
/// each answered when it returned rows.
pub fn record_corp_action(c: &mut Coverage, forecasts: usize, express: usize, disclosures: usize, today: &str)
    ensures
        views(final(c).sources@) == views(old(c).sources@)
            + stamp_if(forecasts > 0, "Tushare forecast"@, today@)
            + stamp_if(express > 0, "Tushare express"@, today@)
            + stamp_if(disclosures > 0, "Tushare disclosure_date"@, today@),
        views(final(c).empty_dimensions@) == views(old(c).empty_dimensions@)
            + missing_if(forecasts > 0, "forecast"@)
            + missing_if(express > 0, "express"@)
            + missing_if(disclosures > 0, "disclosure_date"@),
{
    note_source(c, forecasts > 0, "Tushare forecast", today, "forecast");
    note_source(c, express > 0, "Tushare express", today, "express");
    note_source(c, disclosures > 0, "Tushare disclosure_date", today, "disclosure_date");
}

/// Records one statement of the financial focus (`income`, `balance`,
/// `cashflow` or `ratios`): answered when it returned rows, else missing
/// as `financial_<label>`.
pub fn record_statement(c: &mut Coverage, label: &str, rows: usize, today: &str)
    ensures
        views(final(c).sources@) == views(old(c).sources@) + stamp_if(rows > 0, "Tushare "@ + label@, today@),
        views(final(c).empty_dimensions@) == views(old(c).empty_dimensions@)
            + missing_if(rows > 0, "financial_"@ + label@),
{
    let mut source = owned("Tushare ");
    push_str(&mut source, label);
    let mut dim = owned("financial_");
    push_str(&mut dim, label);
    note_source(c, rows > 0, source.as_str(), today, dim.as_str());
}

/// The source label of the overview's quote: the end-of-day fallback or
/// the live feed.
pub open spec fn quote_source_of(eod_fallback: bool) -> Seq<char> {
    if eod_fallback {
        "Tushare daily (EOD fallback)"@
    } else {
        "EastMoney push2"@
    }
}

/// Records the overview's quote: answered when a quote was had, from
/// the live feed or the end-of-day fallback; else missing as `quote`.
pub fn record_quote(c: &mut Coverage, quoted: bool, eod_fallback: bool, today: &str)
    ensures
        views(final(c).sources@) == views(old(c).sources@) + stamp_if(quoted, quote_source_of(eod_fallback), today@),
        views(final(c).empty_dimensions@) == views(old(c).empty_dimensions@) + missing_if(quoted, "quote"@),
{
    let label = if eod_fallback { "Tushare daily (EOD fallback)" } else { "EastMoney push2" };
    note_source(c, quoted, label, today, "quote");
}


/// The card of the tool: its display name and card kind.
pub fn ui() -> (u: ToolUi)
    ensures
        u.display_name@ == "个股全景"@,
        card_of(u.result) == Some("stock_overview"@),
{
    ToolUi { display_name: "个股全景", result: ResultArtifact::Card("stock_overview") }
}

/// The card summary of a call: its symbol, as a snippet, and its focus.
pub open spec fn ui_summary_of(args: Json) -> Seq<char> {
    "个股 · "@ + snippet(str_or(args, "symbol"@, ""@)) + " · "@ + str_or(args, "focus"@, "overview"@)
}

/// `ui_summary_of` the call's arguments.
pub fn ui_summary(args: &Json) -> (r: String)
    ensures
        r@ == ui_summary_of(*args),
{
    let s = str_arg_or(args, "symbol", "");
    let f = str_arg_or(args, "focus", "overview");
    let mut out = owned("个股 · ");
    push_str(&mut out, summary_snippet(s).as_str());
    push_str(&mut out, " · ");
    push_str(&mut out, f);
    out
}


/// The reply of a call: the focus's markdown followed by the closing
/// lines, and the payload `{"kind": "stock_overview", "symbol", "focus",
/// "data", "empty_dimensions", "sources"}`; the debug view names the
/// symbol as given and as normalised, and the focus.
pub fn overview_reply(focus: &str, dotted: &str, raw: &str, md: String, data: Json, c: &Coverage) -> (r: ToolOutcome)
    ensures
        !r.is_error,
        r.model_output@ == md@ + closing_text(views(c.empty_dimensions@), views(c.sources@)),
        r.display_payload matches Json::Object(m) && str_at(m@, 0, "kind"@, "stock_overview"@) && str_at(
            m@,
            1,
            "symbol"@,
            dotted@,
        ) && str_at(m@, 2, "focus"@, focus@) && json_at(m@, 3, "data"@, data) && coverage_tail(m@, 4, *c),
        r.debug_payload matches Json::Object(d) && d@.len() == 3 && str_at(d@, 0, "symbol_input"@, raw@)
            && str_at(d@, 1, "symbol_normalized"@, dotted@) && str_at(d@, 2, "focus"@, focus@),
{
    let mut text = md;
    let closing = closing_lines(c);
    push_str(&mut text, closing.as_str());
    let mut head: Vec<(String, Json)> = Vec::new();
    head.push(text_member("kind", "stock_overview"));
    head.push(text_member("symbol", dotted));
    head.push(text_member("focus", focus));
    head.push(member("data", data));
    let mut dm: Vec<(String, Json)> = Vec::new();
    dm.push(text_member("symbol_input", raw));
    dm.push(text_member("symbol_normalized", dotted));
    dm.push(text_member("focus", focus));
    let ghost h = head@;
    let r = coverage_reply(text, head, c, Json::Object(dm));
    proof {
        lemma_head(r.display_payload->Object_0@, h);
    }
    r
}

} // verus!
