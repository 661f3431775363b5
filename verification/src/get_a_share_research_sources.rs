//! A-share research source material: announcements, broker research
//! reports (public report center first, structured fallback second),
//! exchange IR Q&A and business events, each rendered as a section that
//! tells a valid empty result apart from an unavailable source.
use vstd::prelude::*;

use crate::json::{arg_str, arg_u64, arg_array, get_array, get_str, get_u64, str_items, str_items_exec, value_text, value_text_exec, Json};
use crate::table::{cell_text, Table};
use crate::tools::{is_abort, is_abort_error};
use crate::text::{
    chars_of, collapse, collapse_chars, contains, fmt_date_str, join, join_strings, owned,
    push_str, str_contains, str_eq, string_of, to_upper, trim, trim_str, truncate,
    truncate_chars, upper_case, views, str_ends_with, ends_with,
};

verus! {

/// Most rows a section lists.
pub const MAX_LIMIT: usize = 20;

/// Rows a section lists when the call names no limit.
pub const DEFAULT_LIMIT: usize = 5;

// ---------------------------------------------------------------------
// Small text helpers
// ---------------------------------------------------------------------
/// A present value with its surrounding whitespace removed, or nothing
/// when it is absent or blank.
pub open spec fn clean(v: Option<Seq<char>>) -> Option<Seq<char>> {
    match v {
        Some(s) => if trim(s).len() == 0 {
            None
        } else {
            Some(trim(s))
        },
        None => None,
    }
}

/// The view of an optional string.
pub open spec fn opt_view(v: Option<String>) -> Option<Seq<char>> {
    match v {
        Some(s) => Some(s@),
        None => None,
    }
}

/// `clean` of an optional string.
pub fn clean_opt(s: Option<&str>) -> (r: Option<String>)
    ensures
        opt_view(r) == clean(match s {
            Some(t) => Some(t@),
            None => None,
        }),
{
    match s {
        Some(t) => {
            let v = trim_str(t);
            if v.as_str().is_empty() {
                None
            } else {
                Some(v)
            }
        },
        None => None,
    }
}

/// An owned value with its surrounding whitespace removed, or nothing
/// when it is blank.
pub fn clean_owned(s: String) -> (r: Option<String>)
    ensures
        opt_view(r) == clean(Some(s@)),
{
    clean_opt(Some(s.as_str()))
}

/// `clean_opt` of an optional owned string.
fn clean_field(s: &Option<String>) -> (r: Option<String>)
    ensures
        opt_view(r) == clean(opt_view(*s)),
{
    match s {
        Some(t) => clean_opt(Some(t.as_str())),
        None => None,
    }
}

/// Whitespace runs collapsed to single spaces, then cut to `max_chars`
/// characters with `…` appended when it was longer.
pub open spec fn compact(s: Seq<char>, max_chars: int) -> Seq<char> {
    truncate(collapse(s), max_chars, seq!['…'])
}

/// `compact` of a text.
pub fn compact_text(s: &str, max_chars: usize) -> (r: String)
    ensures
        r@ == compact(s@, max_chars as int),
{
    let v = chars_of(s);
    let c = collapse_chars(v.as_slice());
    let t = truncate_chars(c.as_slice(), max_chars, "…");
    proof {
        reveal_strlit("…");
    }
    string_of(t.as_slice())
}

/// `YYYYMMDD` rendered as `YYYY-MM-DD`; anything else unchanged.
pub fn fmt_date(s: &str) -> (r: String)
    ensures
        r@ == crate::text::fmt_date(s@),
{
    fmt_date_str(s)
}

/// The date form the public report center expects.
pub fn eastmoney_date(s: &str) -> (r: String)
    ensures
        r@ == crate::text::fmt_date(s@),
{
    fmt_date(s)
}

/// A publish timestamp cut to its `YYYY-MM-DD` part when its bytes at
/// offsets 4 and 7 are dashes; otherwise `fmt_date` of it.
pub open spec fn publish_date(s: Seq<char>) -> Seq<char> {
    let b = vstd::utf8::encode_utf8(s);
    if b.len() >= 10 && b[4] == 45u8 && b[7] == 45u8 {
        vstd::utf8::decode_utf8(b.subrange(0, 10))
    } else {
        crate::text::fmt_date(s)
    }
}

/// Cutting the first ten bytes of `s` off is defined: where the dashes
/// are in place, byte ten is a character boundary.
pub open spec fn publish_date_safe(s: Seq<char>) -> bool {
    let b = vstd::utf8::encode_utf8(s);
    b.len() >= 10 && b[4] == 45u8 && b[7] == 45u8 ==> vstd::utf8::is_char_boundary(b, 10)
}

/// Whether `publish_date_safe` holds of a text.
pub fn publish_date_is_safe(s: &str) -> (r: bool)
    ensures
        r == publish_date_safe(s@),
{
    let b = s.as_bytes();
    if b.len() >= 10 && b[4] == 45u8 && b[7] == 45u8 {
        s.is_char_boundary(10)
    } else {
        true
    }
}

/// `publish_date` of a text. Where the dashes are in place, the first
/// ten bytes must end on a character boundary.
pub fn eastmoney_publish_date(s: &str) -> (r: String)
    requires
        publish_date_safe(s@),
    ensures
        r@ == publish_date(s@),
{
    let b = s.as_bytes();
    if b.len() >= 10 && b[4] == 45u8 && b[7] == 45u8 {
        let (head, _) = s.split_at(10);
        proof {
            vstd::utf8::encode_utf8_decode_utf8(head@);
        }
        head.to_owned()
    } else {
        fmt_date(s)
    }
}

/// The part of a code before its first `.`, trimmed.
pub open spec fn stock_code_part(s: Seq<char>) -> Seq<char> {
    trim(before_dot(s))
}

/// The characters of `s` before its first `.` (all of `s` without one).
pub open spec fn before_dot(s: Seq<char>) -> Seq<char>
    decreases s.len(),
{
    if s.len() == 0 {
        s
    } else if s[0] == '.' {
        Seq::empty()
    } else {
        seq![s[0]] + before_dot(s.drop_first())
    }
}

/// The report-center stock code of a `600519.SH`-style code.
pub fn eastmoney_stock_code(ts_code: &str) -> (r: String)
    ensures
        r@ == stock_code_part(ts_code@),
{
    let v = chars_of(ts_code);
    let mut head: Vec<char> = Vec::new();
    let mut i: usize = 0;
    assert(v@.skip(0) =~= v@);
    assert(head@ + v@ =~= v@);
    while i < v.len() && v[i] != '.'
        invariant
            i <= v.len(),
            head@ == v@.take(i as int),
            forall|k: int| 0 <= k < i ==> v@[k] != '.',
            before_dot(v@) == head@ + before_dot(v@.skip(i as int)),
        decreases v.len() - i,
    {
        assert(v@.skip(i as int).drop_first() =~= v@.skip(i + 1));
        assert(v@.skip(i as int)[0] == v@[i as int]);
        head.push(v[i]);
        assert(head@ =~= v@.take(i + 1));
        i = i + 1;
    }
    proof {
        if i < v.len() {
            assert(v@.skip(i as int)[0] == '.');
        } else {
            assert(v@.skip(i as int) =~= Seq::<char>::empty());
        }
        assert(head@ + Seq::<char>::empty() =~= head@);
    }
    let hs = string_of(head.as_slice());
    trim_str(hs.as_str())
}

/// ` · url` for a non-blank url, else nothing.
pub open spec fn url_suffix(url: Seq<char>) -> Seq<char> {
    if trim(url).len() == 0 {
        Seq::empty()
    } else {
        " · "@ + trim(url)
    }
}

/// `url_suffix` of a url.
pub fn suffix_url(url: &str) -> (r: String)
    ensures
        r@ == url_suffix(url@),
{
    let t = trim_str(url);
    if t.as_str().is_empty() {
        String::new()
    } else {
        let mut out = owned(" · ");
        push_str(&mut out, t.as_str());
        out
    }
}

// ---------------------------------------------------------------------
// Sections
// ---------------------------------------------------------------------
/// Human label for a section's source api.
pub open spec fn source_label(api: Seq<char>) -> Seq<char> {
    if api == "anns_d"@ {
        "交易所公告"@
    } else if api == "eastmoney_report_center"@ {
        "东方财富研报中心"@
    } else if api == "research_report"@ || api == "research_report:fallback"@ {
        "结构化研报"@
    } else if api == "irm_qa_sh"@ || api == "irm_qa_sz"@ {
        "交易所互动问答"@
    } else if api == "business_events"@ {
        "经营事件"@
    } else if api == "source"@ {
        "原文来源"@
    } else {
        "结构化来源"@
    }
}

/// `source_label` of an api name.
pub fn research_source_label(api: &str) -> (r: &'static str)
    ensures
        r@ == source_label(api@),
{
    if str_eq(api, "anns_d") {
        "交易所公告"
    } else if str_eq(api, "eastmoney_report_center") {
        "东方财富研报中心"
    } else if str_eq(api, "research_report") || str_eq(api, "research_report:fallback") {
        "结构化研报"
    } else if str_eq(api, "irm_qa_sh") || str_eq(api, "irm_qa_sz") {
        "交易所互动问答"
    } else if str_eq(api, "business_events") {
        "经营事件"
    } else if str_eq(api, "source") {
        "原文来源"
    } else {
        "结构化来源"
    }
}

/// One section of the report: the rows a source returned, rendered as
/// lines, or the reason the source could not be reached.
pub struct Section {
    pub title: &'static str,
    pub api: &'static str,
    pub lines: Vec<String>,
    pub total_rows: usize,
    pub unavailable: Option<String>,
}

/// Every line followed by a newline.
pub open spec fn lines_text(lines: Seq<Seq<char>>) -> Seq<char>
    decreases lines.len(),
{
    if lines.len() == 0 {
        Seq::empty()
    } else {
        lines_text(lines.drop_last()) + lines.last() + "\n"@
    }
}

/// The markdown of a section.
pub open spec fn section_text(s: Section) -> Seq<char> {
    let source = source_label(s.api@);
    match s.unavailable {
        Some(reason) => "### "@ + s.title@ + " · `"@ + source + "` · 来源不可用\n"@
            + "- 来源不可用："@ + reason@ + "。这代表覆盖/访问缺口，不是有效空结果。\n"@,
        None => "### "@ + s.title@ + " · `"@ + source + "` · "@ + crate::text::decimal(
            s.total_rows as nat,
        ) + "条\n"@ + if s.lines@.len() == 0 {
            "- 当前来源没有返回记录。这是有效空结果，不代表来源覆盖之外没有相关事实。\n"@
        } else {
            lines_text(views(s.lines@))
        },
    }
}

impl Section {
    /// A section holding the lines a source returned.
    pub fn new(title: &'static str, api: &'static str, lines: Vec<String>, total_rows: usize) -> (s:
        Section)
        ensures
            s.title == title,
            s.api == api,
            s.lines@ == lines@,
            s.total_rows == total_rows,
            s.unavailable is None,
    {
        Section { title, api, lines, total_rows, unavailable: None }
    }

    /// A section whose source failed with the message `err`.
    pub fn unavailable(title: &'static str, api: &'static str, err: &str) -> (s: Section)
        ensures
            s.title == title,
            s.api == api,
            s.lines@.len() == 0,
            s.total_rows == 0,
            s.unavailable matches Some(reason) && reason@ == compact(err@, 180),
    {
        Section {
            title,
            api,
            lines: Vec::new(),
            total_rows: 0,
            unavailable: Some(compact_text(err, 180)),
        }
    }

    /// The markdown of the section.
    pub fn render(self) -> (r: String)
        ensures
            r@ == section_text(self),
    {
        self.text()
    }

    /// The markdown of the section, without consuming it.
    pub fn text(&self) -> (r: String)
        ensures
            r@ == section_text(*self),
    {
        let source = research_source_label(self.api);
        let mut out = owned("### ");
        push_str(&mut out, self.title);
        push_str(&mut out, " · `");
        push_str(&mut out, source);
        match &self.unavailable {
            Some(reason) => {
                push_str(&mut out, "` · 来源不可用\n");
                push_str(&mut out, "- 来源不可用：");
                push_str(&mut out, reason.as_str());
                push_str(&mut out, "。这代表覆盖/访问缺口，不是有效空结果。\n");
                out
            },
            None => {
                push_str(&mut out, "` · ");
                let n = crate::text::fmt_u64(self.total_rows as u64);
                push_str(&mut out, n.as_str());
                push_str(&mut out, "条\n");
                let ghost head = out@;
                if self.lines.len() == 0 {
                    push_str(
                        &mut out,
                        "- 当前来源没有返回记录。这是有效空结果，不代表来源覆盖之外没有相关事实。\n",
                    );
                } else {
                    let lines = &self.lines;
                    let ghost vs = views(lines@);
                    let mut i: usize = 0;
                    while i < lines.len()
                        invariant
                            i <= lines.len(),
                            vs == views(lines@),
                            out@ == head + lines_text(vs.take(i as int)),
                        decreases lines.len() - i,
                    {
                        assert(vs.take(i + 1).drop_last() =~= vs.take(i as int));
                        push_str(&mut out, lines[i].as_str());
                        push_str(&mut out, "\n");
                        i = i + 1;
                    }
                    assert(vs.take(lines.len() as int) =~= vs);
                }
                out
            },
        }
    }
}


// ---------------------------------------------------------------------
// Report-center industry lookup
// ---------------------------------------------------------------------
/// One board of the report center's industry board list.
pub struct EastmoneyBoardRow {
    pub board_code: Option<String>,
    pub board_name: Option<String>,
    pub board_level: Option<String>,
}

/// Whether `row` matches the query `q` in the sense `kind` names:
/// `0` its cleaned name equals `q`; `1` its cleaned name contains `q`
/// and its level is `2`; `2` its cleaned name contains `q`.
pub open spec fn board_matches(row: EastmoneyBoardRow, q: Seq<char>, kind: int) -> bool {
    match clean(opt_view(row.board_name)) {
        Some(name) => if kind == 0 {
            name == q
        } else if kind == 1 {
            contains(name, q) && clean(opt_view(row.board_level)) == Some("2"@)
        } else {
            contains(name, q)
        },
        None => false,
    }
}

/// Index of the first row, at `start` or later, that matches in the
/// sense `kind`.
pub open spec fn first_board(rows: Seq<EastmoneyBoardRow>, q: Seq<char>, kind: int, start: int) -> Option<int>
    decreases rows.len() - start,
{
    if start < 0 || start >= rows.len() {
        None
    } else if board_matches(rows[start], q, kind) {
        Some(start)
    } else {
        first_board(rows, q, kind, start + 1)
    }
}

/// The cleaned code of the first row that matches in the sense `kind`;
/// nothing when no row matches or that row has a blank code.
pub open spec fn pick_board(rows: Seq<EastmoneyBoardRow>, q: Seq<char>, kind: int) -> Option<Seq<char>> {
    match first_board(rows, q, kind, 0) {
        Some(i) => clean(opt_view(rows[i].board_code)),
        None => None,
    }
}

/// The report-center industry code for `name`: an exact name match
/// first, then a level-2 board whose name contains it, then any board
/// whose name contains it.
pub open spec fn select_industry_code(rows: Seq<EastmoneyBoardRow>, name: Seq<char>) -> Option<Seq<char>> {
    let q = trim(name);
    if q.len() == 0 {
        None
    } else if pick_board(rows, q, 0) is Some {
        pick_board(rows, q, 0)
    } else if pick_board(rows, q, 1) is Some {
        pick_board(rows, q, 1)
    } else {
        pick_board(rows, q, 2)
    }
}

/// `board_matches` of one row.
fn board_row_matches(row: &EastmoneyBoardRow, q: &str, kind: u8) -> (r: bool)
    requires
        kind <= 2,
    ensures
        r == board_matches(*row, q@, kind as int),
{
    match clean_field(&row.board_name) {
        Some(name) => {
            if kind == 0 {
                str_eq(name.as_str(), q)
            } else if kind == 1 {
                let level = clean_field(&row.board_level);
                proof {
                    reveal_strlit("2");
                }
                str_contains(name.as_str(), q) && match level {
                    Some(l) => str_eq(l.as_str(), "2"),
                    None => false,
                }
            } else {
                str_contains(name.as_str(), q)
            }
        },
        None => false,
    }
}

/// `pick_board` over `rows`.
fn pick_board_exec(rows: &[EastmoneyBoardRow], q: &str, kind: u8) -> (r: Option<String>)
    requires
        kind <= 2,
    ensures
        opt_view(r) == pick_board(rows@, q@, kind as int),
{
    let mut i: usize = 0;
    while i < rows.len()
        invariant
            i <= rows.len(),
            kind <= 2,
            first_board(rows@, q@, kind as int, 0) == first_board(rows@, q@, kind as int, i as int),
        decreases rows.len() - i,
    {
        if board_row_matches(&rows[i], q, kind) {
            return eastmoney_board_code(&rows[i]);
        }
        i = i + 1;
    }
    None
}

/// The cleaned code of a board.
pub fn eastmoney_board_code(row: &EastmoneyBoardRow) -> (r: Option<String>)
    ensures
        opt_view(r) == clean(opt_view(row.board_code)),
{
    clean_field(&row.board_code)
}

/// `select_industry_code` over `rows`.
pub fn select_eastmoney_industry_code(rows: &[EastmoneyBoardRow], industry_name: &str) -> (r:
    Option<String>)
    ensures
        opt_view(r) == select_industry_code(rows@, industry_name@),
{
    let query = trim_str(industry_name);
    if query.as_str().is_empty() {
        return None;
    }
    let exact = pick_board_exec(rows, query.as_str(), 0);
    if exact.is_some() {
        return exact;
    }
    let level2 = pick_board_exec(rows, query.as_str(), 1);
    if level2.is_some() {
        return level2;
    }
    pick_board_exec(rows, query.as_str(), 2)
}


// ---------------------------------------------------------------------
// Report-center report lines
// ---------------------------------------------------------------------
/// Whether a report list asks for stock reports or industry reports.
#[derive(PartialEq, Eq, Structural, Clone, Copy)]
pub enum EastmoneyReportScope {
    Stock,
    Industry,
}

/// One report of the report center's list.
pub struct EastmoneyReportRow {
    pub title: Option<String>,
    pub stock_name: Option<String>,
    pub stock_code: Option<String>,
    pub org_name: Option<String>,
    pub org_s_name: Option<String>,
    pub publish_date: Option<String>,
    pub info_code: Option<String>,
    pub researcher: Option<String>,
    pub em_rating_name: Option<String>,
    pub s_rating_name: Option<String>,
    pub industry_name: Option<String>,
    pub indv_indu_name: Option<String>,
    pub attach_pages: Option<Json>,
}

/// The first of two optional values that is present.
pub open spec fn or_else(a: Option<Seq<char>>, b: Option<Seq<char>>) -> Option<Seq<char>> {
    if a is Some {
        a
    } else {
        b
    }
}

/// `prefix` followed by the value, when there is one.
pub open spec fn labelled(prefix: Seq<char>, v: Option<Seq<char>>) -> Option<Seq<char>> {
    match v {
        Some(x) => Some(prefix + x),
        None => None,
    }
}

/// The one-element list of a present value, else the empty list.
pub open spec fn opt_part(v: Option<Seq<char>>) -> Seq<Seq<char>> {
    match v {
        Some(x) => seq![x],
        None => Seq::empty(),
    }
}

/// Who or what a report is about.
pub open spec fn report_target(row: EastmoneyReportRow, scope: EastmoneyReportScope) -> Option<Seq<char>> {
    let indv = clean(opt_view(row.indv_indu_name));
    if scope == EastmoneyReportScope::Industry {
        labelled("行业:"@, or_else(indv, clean(opt_view(row.industry_name))))
    } else {
        match (clean(opt_view(row.stock_name)), clean(opt_view(row.stock_code))) {
            (Some(name), Some(code)) => Some("标的:"@ + name + "("@ + code + ")"@),
            (Some(name), None) => Some("标的:"@ + name),
            (None, Some(code)) => Some("标的:"@ + code),
            (None, None) => labelled("行业:"@, indv),
        }
    }
}

/// The detail page of a report.
pub open spec fn detail_url(info_code: Seq<char>, scope: EastmoneyReportScope) -> Seq<char> {
    if scope == EastmoneyReportScope::Industry {
        "https://data.eastmoney.com/report/zw_industry.jshtml?infocode="@ + info_code
    } else {
        "https://data.eastmoney.com/report/info/"@ + info_code + ".html"@
    }
}

/// The PDF of a report.
pub open spec fn pdf_url(info_code: Seq<char>) -> Seq<char> {
    "https://pdf.dfcfw.com/pdf/H3_"@ + info_code + "_1.pdf"@
}

/// The page count of a report, as text.
pub open spec fn report_pages(row: EastmoneyReportRow) -> Option<Seq<char>> {
    match row.attach_pages {
        Some(p) => clean(Some(value_text(p))),
        None => None,
    }
}

/// The pieces of a report line after its date, organisation and title.
pub open spec fn report_tail(row: EastmoneyReportRow, scope: EastmoneyReportScope) -> Seq<Seq<char>> {
    opt_part(report_target(row, scope)) + opt_part(
        labelled(
            "评级:"@,
            or_else(clean(opt_view(row.em_rating_name)), clean(opt_view(row.s_rating_name))),
        ),
    ) + opt_part(labelled("作者:"@, clean(opt_view(row.researcher)))) + opt_part(
        match report_pages(row) {
            Some(p) => Some(p + "页"@),
            None => None,
        },
    ) + match clean(opt_view(row.info_code)) {
        Some(code) => seq!["详情页 "@ + detail_url(code, scope), "PDF "@ + pdf_url(code)],
        None => Seq::empty(),
    }
}

/// The line of a report, or nothing for a report without a title.
pub open spec fn report_line(row: EastmoneyReportRow, scope: EastmoneyReportScope) -> Option<Seq<char>> {
    match clean(opt_view(row.title)) {
        None => None,
        Some(title) => {
            let date = match clean(opt_view(row.publish_date)) {
                Some(d) => publish_date(d),
                None => "-"@,
            };
            let org = match or_else(clean(opt_view(row.org_s_name)), clean(opt_view(row.org_name))) {
                Some(o) => o,
                None => "未知机构"@,
            };
            Some(join(seq!["- "@ + date, org, title] + report_tail(row, scope), " · "@))
        },
    }
}

/// The report's publish date, if any, can be cut at byte ten.
pub open spec fn report_row_safe(row: EastmoneyReportRow) -> bool {
    match clean(opt_view(row.publish_date)) {
        Some(d) => publish_date_safe(d),
        None => true,
    }
}

/// Whether `report_row_safe` holds of a report.
pub fn report_row_is_safe(row: &EastmoneyReportRow) -> (r: bool)
    ensures
        r == report_row_safe(*row),
{
    match clean_field(&row.publish_date) {
        Some(d) => publish_date_is_safe(d.as_str()),
        None => true,
    }
}

/// Concatenation of two owned strings.
fn concat(a: &str, b: &str) -> (r: String)
    ensures
        r@ == a@ + b@,
{
    let mut out = owned(a);
    push_str(&mut out, b);
    out
}

/// Concatenation of three texts.
fn concat3(a: &str, b: &str, c: &str) -> (r: String)
    ensures
        r@ == a@ + b@ + c@,
{
    let mut out = owned(a);
    push_str(&mut out, b);
    push_str(&mut out, c);
    out
}

/// The first present value of two cleaned fields.
fn clean_either(a: &Option<String>, b: &Option<String>) -> (r: Option<String>)
    ensures
        opt_view(r) == or_else(clean(opt_view(*a)), clean(opt_view(*b))),
{
    let x = clean_field(a);
    if x.is_some() {
        x
    } else {
        clean_field(b)
    }
}

/// The detail page of a report.
pub fn eastmoney_detail_url(info_code: &str, scope: EastmoneyReportScope) -> (r: String)
    ensures
        r@ == detail_url(info_code@, scope),
{
    if scope == EastmoneyReportScope::Industry {
        concat("https://data.eastmoney.com/report/zw_industry.jshtml?infocode=", info_code)
    } else {
        concat3("https://data.eastmoney.com/report/info/", info_code, ".html")
    }
}

/// The PDF of a report.
pub fn eastmoney_pdf_url(info_code: &str) -> (r: String)
    ensures
        r@ == pdf_url(info_code@),
{
    concat3("https://pdf.dfcfw.com/pdf/H3_", info_code, "_1.pdf")
}

/// Who or what a report is about.
pub fn eastmoney_report_target(row: &EastmoneyReportRow, scope: EastmoneyReportScope) -> (r:
    Option<String>)
    ensures
        opt_view(r) == report_target(*row, scope),
{
    if scope == EastmoneyReportScope::Industry {
        return match clean_either(&row.indv_indu_name, &row.industry_name) {
            Some(name) => Some(concat("行业:", name.as_str())),
            None => None,
        };
    }
    let name = clean_field(&row.stock_name);
    let code = clean_field(&row.stock_code);
    match (name, code) {
        (Some(name), Some(code)) => {
            let mut out = concat("标的:", name.as_str());
            push_str(&mut out, "(");
            push_str(&mut out, code.as_str());
            push_str(&mut out, ")");
            Some(out)
        },
        (Some(name), None) => Some(concat("标的:", name.as_str())),
        (None, Some(code)) => Some(concat("标的:", code.as_str())),
        (None, None) => match clean_field(&row.indv_indu_name) {
            Some(n) => Some(concat("行业:", n.as_str())),
            None => None,
        },
    }
}

/// Appends a present value to `parts`.
fn push_opt(parts: &mut Vec<String>, v: Option<String>)
    ensures
        views(final(parts)@) == views(old(parts)@) + opt_part(opt_view(v)),
{
    let ghost before = views(parts@);
    match v {
        Some(x) => {
            parts.push(x);
            assert(views(parts@) =~= before + opt_part(opt_view(v)));
        },
        None => {
            assert(views(parts@) =~= before + opt_part(opt_view(v)));
        },
    }
}

/// The pieces that `report_tail` lists.
fn report_tail_parts(row: &EastmoneyReportRow, scope: EastmoneyReportScope) -> (parts: Vec<String>)
    ensures
        views(parts@) == report_tail(*row, scope),
{
    let mut parts: Vec<String> = Vec::new();
    assert(views(parts@) =~= Seq::<Seq<char>>::empty());
    push_opt(&mut parts, eastmoney_report_target(row, scope));
    let rating = match clean_either(&row.em_rating_name, &row.s_rating_name) {
        Some(x) => Some(concat("评级:", x.as_str())),
        None => None,
    };
    push_opt(&mut parts, rating);
    let author = match clean_field(&row.researcher) {
        Some(x) => Some(concat("作者:", x.as_str())),
        None => None,
    };
    push_opt(&mut parts, author);
    let pages = match &row.attach_pages {
        Some(p) => {
            let t = value_text_exec(p);
            match clean_owned(t) {
                Some(x) => Some(concat(x.as_str(), "页")),
                None => None,
            }
        },
        None => None,
    };
    push_opt(&mut parts, pages);
    let ghost before_links = views(parts@);
    match clean_field(&row.info_code) {
        Some(code) => {
            let d = eastmoney_detail_url(code.as_str(), scope);
            parts.push(concat("详情页 ", d.as_str()));
            let p = eastmoney_pdf_url(code.as_str());
            parts.push(concat("PDF ", p.as_str()));
            assert(views(parts@) =~= before_links + seq![
                "详情页 "@ + detail_url(code@, scope),
                "PDF "@ + pdf_url(code@),
            ]);
        },
        None => {
            assert(views(parts@) =~= before_links + Seq::<Seq<char>>::empty());
        },
    }
    parts
}

/// Appends every string of `tail` to `parts`.
fn append_strings(parts: &mut Vec<String>, tail: Vec<String>)
    ensures
        views(final(parts)@) == views(old(parts)@) + views(tail@),
{
    let ghost before = views(parts@);
    let mut i: usize = 0;
    while i < tail.len()
        invariant
            i <= tail.len(),
            views(parts@) == before + views(tail@).take(i as int),
        decreases tail.len() - i,
    {
        let ghost p0 = views(parts@);
        parts.push(tail[i].clone());
        assert(views(parts@) =~= p0.push(tail@[i as int]@));
        assert(views(tail@).take(i + 1) =~= views(tail@).take(i as int).push(tail@[i as int]@));
        i = i + 1;
    }
    assert(views(tail@).take(tail.len() as int) =~= views(tail@));
}

/// The line of a report, or nothing for a report without a title.
pub fn eastmoney_report_line(row: &EastmoneyReportRow, scope: EastmoneyReportScope) -> (r: Option<
    String,
>)
    requires
        report_row_safe(*row),
    ensures
        opt_view(r) == report_line(*row, scope),
{
    let title = match clean_field(&row.title) {
        Some(t) => t,
        None => return None,
    };
    let date = match clean_field(&row.publish_date) {
        Some(d) => eastmoney_publish_date(d.as_str()),
        None => owned("-"),
    };
    let org = match clean_either(&row.org_s_name, &row.org_name) {
        Some(o) => o,
        None => owned("未知机构"),
    };
    let mut parts: Vec<String> = Vec::new();
    parts.push(concat("- ", date.as_str()));
    parts.push(org);
    parts.push(title);
    let ghost head = views(parts@);
    assert(head =~= seq!["- "@ + date@, org@, title@]);
    let tail = report_tail_parts(row, scope);
    append_strings(&mut parts, tail);
    Some(join_strings(&parts, " · "))
}


// ---------------------------------------------------------------------
// Sections built from structured tables
// ---------------------------------------------------------------------
/// The lines `f` gives for `rows`, in order, skipping rows it gives none for.
pub open spec fn collect_lines(rows: Seq<Vec<Json>>, f: spec_fn(Seq<Json>) -> Option<Seq<char>>) -> Seq<Seq<char>>
    decreases rows.len(),
{
    if rows.len() == 0 {
        Seq::empty()
    } else {
        collect_lines(rows.drop_last(), f) + opt_part(f(rows.last()@))
    }
}

/// The first `limit` rows.
pub open spec fn first_rows(rows: Seq<Vec<Json>>, limit: int) -> Seq<Vec<Json>> {
    if limit >= rows.len() {
        rows
    } else {
        rows.take(limit)
    }
}

/// One announcement: date, code, title and link; none without a title.
pub open spec fn announcement_line(fields: Seq<String>, row: Seq<Json>) -> Option<Seq<char>> {
    let title = cell_text(fields, row, "title"@);
    if title.len() == 0 {
        None
    } else {
        Some("- "@ + crate::text::fmt_date(cell_text(fields, row, "ann_date"@)) + " · "@ + cell_text(
            fields,
            row,
            "ts_code"@,
        ) + " · "@ + title + url_suffix(cell_text(fields, row, "url"@)))
    }
}

/// One fallback research report; none without a title.
pub open spec fn tushare_report_line(fields: Seq<String>, row: Seq<Json>) -> Option<Seq<char>> {
    let title = cell_text(fields, row, "title"@);
    let abstr = compact(cell_text(fields, row, "abstr"@), 120);
    if title.len() == 0 {
        None
    } else {
        Some("- "@ + crate::text::fmt_date(cell_text(fields, row, "report_date"@)) + " · "@
            + cell_text(fields, row, "org_name"@) + " · "@ + title + (if abstr.len() == 0 {
            Seq::empty()
        } else {
            " · "@ + abstr
        }) + url_suffix(cell_text(fields, row, "url"@)))
    }
}

/// One IR question and answer; none when both are blank.
pub open spec fn ir_qa_line(fields: Seq<String>, row: Seq<Json>) -> Option<Seq<char>> {
    let q = compact(cell_text(fields, row, "q"@), 80);
    let a = compact(cell_text(fields, row, "a"@), 120);
    if q.len() == 0 && a.len() == 0 {
        None
    } else {
        Some("- "@ + crate::text::fmt_date(cell_text(fields, row, "trade_date"@)) + " · Q: "@ + q
            + " · A: "@ + a)
    }
}

/// One earnings forecast.
pub open spec fn forecast_line(fields: Seq<String>, row: Seq<Json>) -> Option<Seq<char>> {
    Some("- "@ + crate::text::fmt_date(cell_text(fields, row, "ann_date"@)) + " · "@
        + crate::text::fmt_date(cell_text(fields, row, "end_date"@)) + " · "@ + cell_text(
        fields,
        row,
        "type"@,
    ) + " · "@ + compact(cell_text(fields, row, "summary"@), 110))
}

/// One dividend.
pub open spec fn dividend_line(fields: Seq<String>, row: Seq<Json>) -> Option<Seq<char>> {
    Some("- "@ + crate::text::fmt_date(cell_text(fields, row, "ann_date"@)) + " · "@ + cell_text(
        fields,
        row,
        "div_proc"@,
    ) + " · 派现"@ + cell_text(fields, row, "cash_div_tax"@) + " · 股权登记"@
        + crate::text::fmt_date(cell_text(fields, row, "record_date"@)))
}

/// Which line a table section renders per row.
#[derive(PartialEq, Eq, Structural, Clone, Copy)]
pub enum LineKind {
    Announcement,
    TushareReport,
    IrQa,
    Forecast,
    Dividend,
}

/// The line of one row for the section kind `kind`.
pub open spec fn kind_line(kind: LineKind, fields: Seq<String>, row: Seq<Json>) -> Option<Seq<char>> {
    match kind {
        LineKind::Announcement => announcement_line(fields, row),
        LineKind::TushareReport => tushare_report_line(fields, row),
        LineKind::IrQa => ir_qa_line(fields, row),
        LineKind::Forecast => forecast_line(fields, row),
        LineKind::Dividend => dividend_line(fields, row),
    }
}

/// The lines of the first `limit` rows of `table` for `kind`.
pub open spec fn table_lines(kind: LineKind, table: Table, limit: int) -> Seq<Seq<char>> {
    collect_lines(first_rows(table.rows@, limit), |row: Seq<Json>| kind_line(kind, table.fields@, row))
}

/// ` · text`, or nothing for an empty text.
fn dot_joined(t: &str) -> (r: String)
    ensures
        r@ == if t@.len() == 0 {
            Seq::<char>::empty()
        } else {
            " · "@ + t@
        },
{
    if t.is_empty() {
        String::new()
    } else {
        concat(" · ", t)
    }
}

/// The line of one row for the section kind `kind`.
pub fn kind_line_exec(kind: LineKind, table: &Table, row: &[Json]) -> (r: Option<String>)
    ensures
        opt_view(r) == kind_line(kind, table.fields@, row@),
{
    match kind {
        LineKind::Announcement => {
            let title = table.text(row, "title");
            if title.as_str().is_empty() {
                return None;
            }
            let mut out = owned("- ");
            push_str(&mut out, fmt_date(table.text(row, "ann_date").as_str()).as_str());
            push_str(&mut out, " · ");
            push_str(&mut out, table.text(row, "ts_code").as_str());
            push_str(&mut out, " · ");
            push_str(&mut out, title.as_str());
            push_str(&mut out, suffix_url(table.text(row, "url").as_str()).as_str());
            Some(out)
        },
        LineKind::TushareReport => {
            let title = table.text(row, "title");
            let abstr = compact_text(table.text(row, "abstr").as_str(), 120);
            if title.as_str().is_empty() {
                return None;
            }
            let mut out = owned("- ");
            push_str(&mut out, fmt_date(table.text(row, "report_date").as_str()).as_str());
            push_str(&mut out, " · ");
            push_str(&mut out, table.text(row, "org_name").as_str());
            push_str(&mut out, " · ");
            push_str(&mut out, title.as_str());
            push_str(&mut out, dot_joined(abstr.as_str()).as_str());
            push_str(&mut out, suffix_url(table.text(row, "url").as_str()).as_str());
            Some(out)
        },
        LineKind::IrQa => {
            let q = compact_text(table.text(row, "q").as_str(), 80);
            let a = compact_text(table.text(row, "a").as_str(), 120);
            if q.as_str().is_empty() && a.as_str().is_empty() {
                return None;
            }
            let mut out = owned("- ");
            push_str(&mut out, fmt_date(table.text(row, "trade_date").as_str()).as_str());
            push_str(&mut out, " · Q: ");
            push_str(&mut out, q.as_str());
            push_str(&mut out, " · A: ");
            push_str(&mut out, a.as_str());
            Some(out)
        },
        LineKind::Forecast => {
            let mut out = owned("- ");
            push_str(&mut out, fmt_date(table.text(row, "ann_date").as_str()).as_str());
            push_str(&mut out, " · ");
            push_str(&mut out, fmt_date(table.text(row, "end_date").as_str()).as_str());
            push_str(&mut out, " · ");
            push_str(&mut out, table.text(row, "type").as_str());
            push_str(&mut out, " · ");
            push_str(&mut out, compact_text(table.text(row, "summary").as_str(), 110).as_str());
            Some(out)
        },
        LineKind::Dividend => {
            let mut out = owned("- ");
            push_str(&mut out, fmt_date(table.text(row, "ann_date").as_str()).as_str());
            push_str(&mut out, " · ");
            push_str(&mut out, table.text(row, "div_proc").as_str());
            push_str(&mut out, " · 派现");
            push_str(&mut out, table.text(row, "cash_div_tax").as_str());
            push_str(&mut out, " · 股权登记");
            push_str(&mut out, fmt_date(table.text(row, "record_date").as_str()).as_str());
            Some(out)
        },
    }
}

/// The lines of the first `limit` rows of `table` for `kind`.
pub fn table_lines_exec(kind: LineKind, table: &Table, limit: usize) -> (lines: Vec<String>)
    ensures
        views(lines@) == table_lines(kind, *table, limit as int),
{
    let ghost f = |row: Seq<Json>| kind_line(kind, table.fields@, row);
    let n = if limit < table.rows.len() {
        limit
    } else {
        table.rows.len()
    };
    let ghost rows = first_rows(table.rows@, limit as int);
    assert(rows.len() == n);
    let mut lines: Vec<String> = Vec::new();
    let mut i: usize = 0;
    while i < n
        invariant
            i <= n,
            n <= table.rows@.len(),
            rows == first_rows(table.rows@, limit as int),
            rows.len() == n,
            f == (|row: Seq<Json>| kind_line(kind, table.fields@, row)),
            views(lines@) == collect_lines(rows.take(i as int), f),
        decreases n - i,
    {
        assert(rows.take(i + 1).drop_last() =~= rows.take(i as int));
        assert(rows[i as int] == table.rows@[i as int]);
        let ghost before = views(lines@);
        let line = kind_line_exec(kind, table, table.rows[i].as_slice());
        push_opt(&mut lines, line);
        i = i + 1;
    }
    assert(rows.take(n as int) =~= rows);
    lines
}

/// The announcements section of a structured announcement table.
pub fn announcements_section(table: &Table, limit: usize) -> (s: Section)
    ensures
        s.title@ == "公告"@,
        s.api@ == "anns_d"@,
        views(s.lines@) == table_lines(LineKind::Announcement, *table, limit as int),
        s.total_rows == table.rows@.len(),
        s.unavailable is None,
{
    Section::new("公告", "anns_d", table_lines_exec(LineKind::Announcement, table, limit), table.rows.len())
}

/// The fallback research-report section of a structured report table.
pub fn tushare_reports_section(table: &Table, limit: usize) -> (s: Section)
    ensures
        s.title@ == "研报（Tushare fallback）"@,
        s.api@ == "research_report:fallback"@,
        views(s.lines@) == table_lines(LineKind::TushareReport, *table, limit as int),
        s.total_rows == table.rows@.len(),
        s.unavailable is None,
{
    Section::new(
        "研报（Tushare fallback）",
        "research_report:fallback",
        table_lines_exec(LineKind::TushareReport, table, limit),
        table.rows.len(),
    )
}

/// The IR Q&A section of a structured Q&A table fetched from `api`.
pub fn ir_qa_section(table: &Table, api: &'static str, limit: usize) -> (s: Section)
    ensures
        s.title@ == "互动问答"@,
        s.api == api,
        views(s.lines@) == table_lines(LineKind::IrQa, *table, limit as int),
        s.total_rows == table.rows@.len(),
        s.unavailable is None,
{
    Section::new("互动问答", api, table_lines_exec(LineKind::IrQa, table, limit), table.rows.len())
}

/// The IR Q&A section for a code on an exchange without Q&A coverage.
pub fn ir_qa_unsupported_section() -> (s: Section)
    ensures
        s.title@ == "互动问答"@,
        s.api@ == "irm_qa"@,
        views(s.lines@) == seq!["- 北京证券交易所互动问答暂未接入。"@],
        s.total_rows == 0,
        s.unavailable is None,
{
    let mut lines: Vec<String> = Vec::new();
    lines.push(owned("- 北京证券交易所互动问答暂未接入。"));
    assert(views(lines@) =~= seq!["- 北京证券交易所互动问答暂未接入。"@]);
    Section::new("互动问答", "irm_qa", lines, 0)
}

/// The earnings-forecast section of a structured forecast table.
pub fn forecast_section(table: &Table, limit: usize) -> (s: Section)
    ensures
        s.title@ == "业绩预告"@,
        s.api@ == "forecast_vip"@,
        views(s.lines@) == table_lines(LineKind::Forecast, *table, limit as int),
        s.total_rows == table.rows@.len(),
        s.unavailable is None,
{
    Section::new("业绩预告", "forecast_vip", table_lines_exec(LineKind::Forecast, table, limit), table.rows.len())
}

/// The dividend section of a structured dividend table.
pub fn dividend_section(table: &Table, limit: usize) -> (s: Section)
    ensures
        s.title@ == "分红"@,
        s.api@ == "dividend"@,
        views(s.lines@) == table_lines(LineKind::Dividend, *table, limit as int),
        s.total_rows == table.rows@.len(),
        s.unavailable is None,
{
    Section::new("分红", "dividend", table_lines_exec(LineKind::Dividend, table, limit), table.rows.len())
}


// ---------------------------------------------------------------------
// Report-center report list
// ---------------------------------------------------------------------
/// The lines of the first `limit` report rows.
pub open spec fn report_lines(rows: Seq<EastmoneyReportRow>, scope: EastmoneyReportScope) -> Seq<Seq<char>>
    decreases rows.len(),
{
    if rows.len() == 0 {
        Seq::empty()
    } else {
        report_lines(rows.drop_last(), scope) + opt_part(report_line(rows.last(), scope))
    }
}

/// The first `limit` report rows.
pub open spec fn first_reports(rows: Seq<EastmoneyReportRow>, limit: int) -> Seq<EastmoneyReportRow> {
    if limit >= rows.len() {
        rows
    } else {
        rows.take(limit)
    }
}

/// The research-report section of a report-center list: its first
/// `limit` rows with a title, and the total the list announced (`hits`),
/// or its row count when it announced none.
pub fn eastmoney_reports_section(
    rows: &Vec<EastmoneyReportRow>,
    hits: Option<usize>,
    scope: EastmoneyReportScope,
    limit: usize,
) -> (s: Section)
    requires
        forall|i: int| 0 <= i < rows@.len() && i < limit ==> report_row_safe(#[trigger] rows@[i]),
    ensures
        s.title@ == if scope == EastmoneyReportScope::Industry {
            "研报（东方财富行业）"@
        } else {
            "研报（东方财富）"@
        },
        s.api@ == "eastmoney_report_list"@,
        views(s.lines@) == report_lines(first_reports(rows@, limit as int), scope),
        s.total_rows == match hits {
            Some(h) => h,
            None => rows@.len() as usize,
        },
        s.unavailable is None,
{
    let n = if limit < rows.len() {
        limit
    } else {
        rows.len()
    };
    let ghost firsts = first_reports(rows@, limit as int);
    let mut lines: Vec<String> = Vec::new();
    let mut i: usize = 0;
    while i < n
        invariant
            i <= n,
            n <= rows@.len(),
            n <= limit,
            firsts == first_reports(rows@, limit as int),
            firsts.len() == n,
            forall|k: int| 0 <= k < rows@.len() && k < limit ==> report_row_safe(#[trigger] rows@[k]),
            views(lines@) == report_lines(firsts.take(i as int), scope),
        decreases n - i,
    {
        assert(firsts.take(i + 1).drop_last() =~= firsts.take(i as int));
        assert(firsts[i as int] == rows@[i as int]);
        let line = eastmoney_report_line(&rows[i], scope);
        push_opt(&mut lines, line);
        i = i + 1;
    }
    assert(firsts.take(n as int) =~= firsts);
    let total = match hits {
        Some(h) => h,
        None => rows.len(),
    };
    if scope == EastmoneyReportScope::Industry {
        Section::new("研报（东方财富行业）", "eastmoney_report_list", lines, total)
    } else {
        Section::new("研报（东方财富）", "eastmoney_report_list", lines, total)
    }
}

/// The message a report-center reply carries: `message`, else `msg`.
pub fn message_text(message: &Option<String>, msg: &Option<String>) -> (r: Option<String>)
    ensures
        opt_view(r) == or_else(clean(opt_view(*message)), clean(opt_view(*msg))),
{
    clean_either(message, msg)
}

/// The error a report-center reply without data or hit count stands
/// for, when it carries a message.
pub fn report_list_error(has_data: bool, has_hits: bool, message: Option<String>) -> (r: Option<
    String,
>)
    ensures
        opt_view(r) == if !has_data && !has_hits {
            labelled("Eastmoney report list returned no data: "@, opt_view(message))
        } else {
            None
        },
{
    if !has_data && !has_hits {
        match message {
            Some(m) => Some(concat("Eastmoney report list returned no data: ", m.as_str())),
            None => None,
        }
    } else {
        None
    }
}

/// The report scope a request has: industry reports once an industry
/// code is known, else stock reports.
pub fn report_scope(selected_industry_code: &Option<String>) -> (r: EastmoneyReportScope)
    ensures
        r == if selected_industry_code is Some {
            EastmoneyReportScope::Industry
        } else {
            EastmoneyReportScope::Stock
        },
{
    if selected_industry_code.is_some() {
        EastmoneyReportScope::Industry
    } else {
        EastmoneyReportScope::Stock
    }
}

/// Views of a list of name/value pairs.
pub open spec fn pair_views(v: Seq<(String, String)>) -> Seq<(Seq<char>, Seq<char>)> {
    v.map_values(|p: (String, String)| (p.0@, p.1@))
}

/// The query of a report-center list request.
pub open spec fn report_query(
    ts_code: Option<Seq<char>>,
    industry_code: Option<Seq<char>>,
    start_date: Seq<char>,
    end_date: Seq<char>,
    limit: usize,
) -> Seq<(Seq<char>, Seq<char>)> {
    let industry = industry_code is Some;
    seq![
        ("industryCode"@, match industry_code { Some(c) => c, None => "*"@ }),
        ("pageSize"@, crate::text::decimal(limit as nat)),
        ("industry"@, "*"@),
        ("rating"@, "*"@),
        ("ratingChange"@, "*"@),
        ("beginTime"@, crate::text::fmt_date(start_date)),
        ("endTime"@, crate::text::fmt_date(end_date)),
        ("pageNo"@, "1"@),
        ("fields"@, Seq::empty()),
        ("qType"@, if industry { "1"@ } else { "0"@ }),
        ("orgCode"@, Seq::empty()),
        ("rcode"@, Seq::empty()),
    ] + if industry {
        Seq::empty()
    } else {
        match ts_code {
            Some(code) => seq![("code"@, stock_code_part(code))],
            None => seq![("code"@, "*"@)],
        }
    }
}

/// A name/value pair of owned strings.
fn pair(name: &str, value: String) -> (p: (String, String))
    ensures
        p.0@ == name@,
        p.1@ == value@,
{
    (owned(name), value)
}

/// The query of a report-center list request.
pub fn report_query_params(
    ts_code: Option<&str>,
    industry_code: Option<&str>,
    start_date: &str,
    end_date: &str,
    limit: usize,
) -> (params: Vec<(String, String)>)
    ensures
        pair_views(params@) == report_query(
            match ts_code {
                Some(c) => Some(c@),
                None => None,
            },
            match industry_code {
                Some(c) => Some(c@),
                None => None,
            },
            start_date@,
            end_date@,
            limit,
        ),
{
    let mut params: Vec<(String, String)> = Vec::new();
    let code = match industry_code {
        Some(c) => owned(c),
        None => owned("*"),
    };
    params.push(pair("industryCode", code));
    params.push(pair("pageSize", crate::text::fmt_u64(limit as u64)));
    params.push(pair("industry", owned("*")));
    params.push(pair("rating", owned("*")));
    params.push(pair("ratingChange", owned("*")));
    params.push(pair("beginTime", eastmoney_date(start_date)));
    params.push(pair("endTime", eastmoney_date(end_date)));
    params.push(pair("pageNo", owned("1")));
    params.push(pair("fields", String::new()));
    let q = if industry_code.is_some() {
        owned("1")
    } else {
        owned("0")
    };
    params.push(pair("qType", q));
    params.push(pair("orgCode", String::new()));
    params.push(pair("rcode", String::new()));
    if industry_code.is_none() {
        match ts_code {
            Some(c) => params.push(pair("code", eastmoney_stock_code(c))),
            None => params.push(pair("code", owned("*"))),
        }
    }
    assert(pair_views(params@) =~= report_query(
        match ts_code {
            Some(c) => Some(c@),
            None => None,
        },
        match industry_code {
            Some(c) => Some(c@),
            None => None,
        },
        start_date@,
        end_date@,
        limit,
    ));
    params
}

/// The error when the report center and its fallback both failed.
pub fn report_fallback_error(eastmoney_err: &str, tushare_err: &str) -> (r: String)
    ensures
        r@ == "Eastmoney report source unavailable: "@ + compact(eastmoney_err@, 160)
            + "; Tushare fallback also failed: "@ + compact(tushare_err@, 160),
{
    let mut out = owned("Eastmoney report source unavailable: ");
    push_str(&mut out, compact_text(eastmoney_err, 160).as_str());
    push_str(&mut out, "; Tushare fallback also failed: ");
    push_str(&mut out, compact_text(tushare_err, 160).as_str());
    out
}

/// The error when the report center failed and no fallback credential
/// could be had.
pub fn report_token_error(eastmoney_err: &str, token_err: &str) -> (r: String)
    ensures
        r@ == "Eastmoney report source unavailable: "@ + compact(eastmoney_err@, 160)
            + "; fallback report source unavailable: "@ + token_err@,
{
    let mut out = owned("Eastmoney report source unavailable: ");
    push_str(&mut out, compact_text(eastmoney_err, 160).as_str());
    push_str(&mut out, "; fallback report source unavailable: ");
    push_str(&mut out, token_err);
    out
}


// ---------------------------------------------------------------------
// Arguments
// ---------------------------------------------------------------------
/// A code argument: trimmed, upper-cased, and absent when blank.
pub open spec fn upper_arg(v: Option<Seq<char>>) -> Option<Seq<char>> {
    match v {
        Some(s) => if upper_case(trim(s)).len() == 0 {
            None
        } else {
            Some(upper_case(trim(s)))
        },
        None => None,
    }
}

/// `upper_arg` of an optional text.
pub fn upper_arg_exec(v: Option<&str>) -> (r: Option<String>)
    ensures
        opt_view(r) == upper_arg(match v {
            Some(s) => Some(s@),
            None => None,
        }),
{
    match v {
        Some(s) => {
            let t = trim_str(s);
            let u = to_upper(t.as_str());
            if u.as_str().is_empty() {
                None
            } else {
                Some(u)
            }
        },
        None => None,
    }
}

/// The source kinds a call asks for when it names none.
pub open spec fn default_source_types(has_ts_code: bool) -> Seq<Seq<char>> {
    if has_ts_code {
        seq!["announcements"@, "research_reports"@, "business_events"@]
    } else {
        seq!["announcements"@, "research_reports"@]
    }
}

/// The source kinds a call asks for: the strings of its `source_types`
/// list when there are any, else the default for its code presence.
pub open spec fn source_types_spec(args: Json, has_ts_code: bool) -> Seq<Seq<char>> {
    match arg_array(args, "source_types"@) {
        Some(items) => if str_items(items).len() > 0 {
            str_items(items)
        } else {
            default_source_types(has_ts_code)
        },
        None => default_source_types(has_ts_code),
    }
}

/// `source_types_spec` of the call arguments.
pub fn source_types(args: &Json, has_ts_code: bool) -> (r: Vec<String>)
    ensures
        views(r@) == source_types_spec(*args, has_ts_code),
{
    match get_array(args, "source_types") {
        Some(items) => {
            let v = str_items_exec(items);
            if v.len() > 0 {
                return v;
            }
        },
        None => {},
    }
    let mut d: Vec<String> = Vec::new();
    d.push(owned("announcements"));
    d.push(owned("research_reports"));
    if has_ts_code {
        d.push(owned("business_events"));
    }
    assert(views(d@) =~= default_source_types(has_ts_code));
    d
}

/// Whether `kinds` names `kind`.
pub fn wants(kinds: &Vec<String>, kind: &str) -> (r: bool)
    ensures
        r == views(kinds@).contains(kind@),
{
    let mut i: usize = 0;
    while i < kinds.len()
        invariant
            i <= kinds.len(),
            forall|k: int| 0 <= k < i ==> views(kinds@)[k] != kind@,
        decreases kinds.len() - i,
    {
        if str_eq(kinds[i].as_str(), kind) {
            assert(views(kinds@)[i as int] == kind@);
            return true;
        }
        i = i + 1;
    }
    false
}

/// The row limit a call asks for: its `limit` kept within `1..=20`,
/// else five.
pub open spec fn limit_spec(args: Json) -> int {
    match arg_u64(args, "limit"@) {
        Some(n) => if n < 1 {
            1
        } else if n > MAX_LIMIT {
            MAX_LIMIT as int
        } else {
            n as int
        },
        None => DEFAULT_LIMIT as int,
    }
}

/// The arguments of a research-source call.
pub struct ResearchArgs {
    pub ts_code: Option<String>,
    pub industry_code: Option<String>,
    pub industry_name: Option<String>,
    pub start_date: String,
    pub end_date: String,
    pub limit: usize,
    pub source_types: Vec<String>,
}

/// Reads the arguments of a research-source call. `default_start` and
/// `today` are the `YYYYMMDD` dates of the window used where the call
/// names none.
pub fn parse_research_args(args: &Json, default_start: &str, today: &str) -> (r: ResearchArgs)
    ensures
        opt_view(r.ts_code) == upper_arg(arg_str(*args, "ts_code"@)),
        opt_view(r.industry_code) == clean(arg_str(*args, "industry_code"@)),
        opt_view(r.industry_name) == clean(arg_str(*args, "industry_name"@)),
        r.start_date@ == match arg_str(*args, "start_date"@) {
            Some(d) => d,
            None => default_start@,
        },
        r.end_date@ == match arg_str(*args, "end_date"@) {
            Some(d) => d,
            None => today@,
        },
        r.limit == limit_spec(*args),
        views(r.source_types@) == source_types_spec(*args, r.ts_code is Some),
{
    let ts_code = upper_arg_exec(get_str(args, "ts_code"));
    let industry_code = clean_opt(get_str(args, "industry_code"));
    let industry_name = clean_opt(get_str(args, "industry_name"));
    let start_date = match get_str(args, "start_date") {
        Some(d) => owned(d),
        None => owned(default_start),
    };
    let end_date = match get_str(args, "end_date") {
        Some(d) => owned(d),
        None => owned(today),
    };
    let limit: usize = match get_u64(args, "limit") {
        Some(n) => if n < 1 {
            1
        } else if n > 20 {
            MAX_LIMIT
        } else {
            n as usize
        },
        None => DEFAULT_LIMIT,
    };
    let kinds = source_types(args, ts_code.is_some());
    ResearchArgs {
        ts_code,
        industry_code,
        industry_name,
        start_date,
        end_date,
        limit,
        source_types: kinds,
    }
}

/// The exchange IR Q&A api for a code and the fields it returns, or
/// nothing for a code outside the two exchanges that have one.
pub open spec fn ir_qa_source_spec(code: Seq<char>) -> Option<(Seq<char>, Seq<char>)> {
    if ends_with(code, ".SH"@) {
        Some(("irm_qa_sh"@, "ts_code,name,trade_date,q,a,pub_time,industry,main_business"@))
    } else if ends_with(code, ".SZ"@) {
        Some(("irm_qa_sz"@, "ts_code,name,trade_date,q,a,pub_time"@))
    } else {
        None
    }
}

/// `ir_qa_source_spec` of a code.
pub fn ir_qa_source(code: &str) -> (r: Option<(&'static str, &'static str)>)
    ensures
        match r {
            Some((api, fields)) => ir_qa_source_spec(code@) == Some((api@, fields@)),
            None => ir_qa_source_spec(code@) is None,
        },
{
    if str_ends_with(code, ".SH") {
        Some(("irm_qa_sh", "ts_code,name,trade_date,q,a,pub_time,industry,main_business"))
    } else if str_ends_with(code, ".SZ") {
        Some(("irm_qa_sz", "ts_code,name,trade_date,q,a,pub_time"))
    } else {
        None
    }
}

/// The api an IR Q&A failure is reported under.
pub fn ir_qa_api(code: &str) -> (r: &'static str)
    ensures
        r@ == match ir_qa_source_spec(code@) {
            Some((api, _)) => api,
            None => "irm_qa"@,
        },
{
    match ir_qa_source(code) {
        Some((api, _)) => api,
        None => "irm_qa",
    }
}

/// Which sources a call will fetch.
pub struct ResearchPlan {
    pub announcements: bool,
    pub research_reports: bool,
    pub ir_qa: bool,
    pub business_events: bool,
}

/// The sources a call fetches; IR Q&A and business events need a code.
pub fn research_plan(args: &ResearchArgs) -> (r: Result<ResearchPlan, String>)
    ensures
        match r {
            Ok(plan) => {
                &&& plan.announcements == views(args.source_types@).contains("announcements"@)
                &&& plan.research_reports == views(args.source_types@).contains("research_reports"@)
                &&& plan.ir_qa == views(args.source_types@).contains("ir_qa"@)
                &&& plan.business_events == views(args.source_types@).contains("business_events"@)
                &&& (plan.ir_qa || plan.business_events) ==> args.ts_code is Some
            },
            Err(e) => {
                &&& args.ts_code is None
                &&& if views(args.source_types@).contains("ir_qa"@) {
                    e@ == "ts_code is required for ir_qa"@
                } else {
                    &&& views(args.source_types@).contains("business_events"@)
                    &&& e@ == "ts_code is required for business_events"@
                }
            },
        },
{
    let plan = ResearchPlan {
        announcements: wants(&args.source_types, "announcements"),
        research_reports: wants(&args.source_types, "research_reports"),
        ir_qa: wants(&args.source_types, "ir_qa"),
        business_events: wants(&args.source_types, "business_events"),
    };
    if args.ts_code.is_none() {
        if plan.ir_qa {
            return Err(owned("ts_code is required for ir_qa"));
        }
        if plan.business_events {
            return Err(owned("ts_code is required for business_events"));
        }
    }
    Ok(plan)
}

// ---------------------------------------------------------------------
// The report
// ---------------------------------------------------------------------
/// What the report is about: the code, else the industry name, else
/// the industry code, else the whole market.
pub open spec fn research_subject_spec(
    ts_code: Option<Seq<char>>,
    industry_name: Option<Seq<char>>,
    industry_code: Option<Seq<char>>,
) -> Seq<char> {
    match ts_code {
        Some(c) => c,
        None => match industry_name {
            Some(n) => "行业 "@ + n,
            None => match industry_code {
                Some(c) => "行业代码 "@ + c,
                None => "A-share market"@,
            },
        },
    }
}

/// `research_subject_spec` of a call's arguments.
pub fn research_subject(args: &ResearchArgs) -> (r: String)
    ensures
        r@ == research_subject_spec(
            opt_view(args.ts_code),
            opt_view(args.industry_name),
            opt_view(args.industry_code),
        ),
{
    match &args.ts_code {
        Some(c) => c.clone(),
        None => match &args.industry_name {
            Some(n) => concat("行业 ", n.as_str()),
            None => match &args.industry_code {
                Some(c) => concat("行业代码 ", c.as_str()),
                None => owned("A-share market"),
            },
        },
    }
}

/// Every section's markdown followed by a newline.
pub open spec fn sections_text(sections: Seq<Section>) -> Seq<char>
    decreases sections.len(),
{
    if sections.len() == 0 {
        Seq::empty()
    } else {
        sections_text(sections.drop_last()) + section_text(sections.last()) + "\n"@
    }
}

/// The closing note of the report.
pub open spec fn research_footer() -> Seq<char> {
    "_Sources: Eastmoney public report center for research_reports; Tushare Pro for announcements, IR Q&A, business breakdowns, forecasts, and dividends. News feeds are intentionally not included._"@
}

/// The whole report.
pub open spec fn research_report_text(
    subject: Seq<char>,
    start_date: Seq<char>,
    end_date: Seq<char>,
    sections: Seq<Section>,
) -> Seq<char> {
    "## "@ + subject + " · A股研究源材料\n\n窗口："@ + crate::text::fmt_date(start_date) + " → "@
        + crate::text::fmt_date(end_date) + "\n\n"@ + sections_text(sections) + research_footer()
}

/// The whole report.
pub fn render_research_report(
    subject: &str,
    start_date: &str,
    end_date: &str,
    sections: &Vec<Section>,
) -> (r: String)
    ensures
        r@ == research_report_text(subject@, start_date@, end_date@, sections@),
{
    let mut out = owned("## ");
    push_str(&mut out, subject);
    push_str(&mut out, " · A股研究源材料\n\n窗口：");
    push_str(&mut out, fmt_date(start_date).as_str());
    push_str(&mut out, " → ");
    push_str(&mut out, fmt_date(end_date).as_str());
    push_str(&mut out, "\n\n");
    let ghost head = out@;
    let mut i: usize = 0;
    while i < sections.len()
        invariant
            i <= sections.len(),
            out@ == head + sections_text(sections@.take(i as int)),
        decreases sections.len() - i,
    {
        assert(sections@.take(i + 1).drop_last() =~= sections@.take(i as int));
        push_str(&mut out, sections[i].text().as_str());
        push_str(&mut out, "\n");
        i = i + 1;
    }
    assert(sections@.take(sections.len() as int) =~= sections@);
    push_str(
        &mut out,
        "_Sources: Eastmoney public report center for research_reports; Tushare Pro for announcements, IR Q&A, business breakdowns, forecasts, and dividends. News feeds are intentionally not included._",
    );
    out
}

/// Adds the outcome of one source to the sections: its section when it
/// answered, an unavailable section naming the failure when it failed,
/// unless the failure is an abort, which ends the call with that failure
/// and adds nothing.
pub fn push_section_result(
    sections: &mut Vec<Section>,
    title: &'static str,
    api: &'static str,
    result: Result<Section, String>,
    cancelled: bool,
) -> (r: Result<(), String>)
    ensures
        match result {
            Ok(section) => r is Ok && final(sections)@ == old(sections)@.push(section),
            Err(e) => if is_abort(cancelled, e@) {
                r matches Err(m) && m@ == e@ && final(sections)@ == old(sections)@
            } else {
                &&& r is Ok
                &&& final(sections)@.len() == old(sections)@.len() + 1
                &&& final(sections)@.take(old(sections)@.len() as int) == old(sections)@
                &&& {
                    let s = final(sections)@.last();
                    &&& s.title == title
                    &&& s.api == api
                    &&& s.lines@.len() == 0
                    &&& s.total_rows == 0
                    &&& s.unavailable matches Some(reason) && reason@ == compact(e@, 180)
                }
            },
        },
{
    match result {
        Ok(section) => {
            sections.push(section);
            Ok(())
        },
        Err(e) => {
            if is_abort_error(cancelled, e.as_str()) {
                Err(e)
            } else {
                let ghost before = sections@;
                sections.push(Section::unavailable(title, api, e.as_str()));
                assert(sections@.take(before.len() as int) =~= before);
                Ok(())
            }
        },
    }
}

} // verus!
