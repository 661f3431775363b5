//! `macro_indicators`: the sections whose rows are texts only, the
//! State Council policy library and the release calendar.
use vstd::prelude::*;

use crate::coverage::{closing_lines, closing_text, gap_reply, Coverage};
use crate::json::str_items;
use crate::text::views;
use crate::tools::ToolOutcome;

use crate::tools::{card_of, str_arg_or, ToolUi, ResultArtifact};
use crate::tool_args::str_or;
use crate::json::Json;

use crate::text::{decimal, fmt_u64, owned, push_str};

verus! {

/// An optional text, or `-`.
pub open spec fn or_dash(o: Option<String>) -> Seq<char> {
    match o {
        Some(s) => s@,
        None => "-"@,
    }
}

fn push_or_dash(out: &mut String, o: &Option<String>)
    ensures
        final(out)@ == old(out)@ + or_dash(*o),
{
    match o {
        Some(s) => push_str(out, s.as_str()),
        None => push_str(out, "-"),
    }
}

/// One policy document.
pub struct PolicyItem {
    pub publish_date: String,
    pub publish_org: Option<String>,
    pub title: String,
    pub policy_id: Option<String>,
}

/// One policy line: `- **date** · org · title (id)`.
pub open spec fn policy_line(p: PolicyItem) -> Seq<char> {
    "- **"@ + p.publish_date@ + "** · "@ + or_dash(p.publish_org) + " · "@ + p.title@ + match p.policy_id {
        Some(c) => " ("@ + c@ + ")"@,
        None => Seq::empty(),
    } + "\n"@
}

/// The lines of policies.
pub open spec fn policy_lines(s: Seq<PolicyItem>) -> Seq<char>
    decreases s.len(),
{
    if s.len() == 0 {
        Seq::empty()
    } else {
        policy_lines(s.drop_last()) + policy_line(s.last())
    }
}

/// The policy section: the count and the lines, or a note that the
/// window held none.
pub open spec fn policy_section_text(s: Seq<PolicyItem>) -> Seq<char> {
    "## 国务院政策文件库(近 30 天)\n\n"@ + if s.len() == 0 {
        "窗口内未拉到政策条目。\n"@
    } else {
        "共 "@ + decimal(s.len()) + " 条,按发布日倒序:\n\n"@ + policy_lines(s)
    }
}

/// The policy section.
pub fn policy_section(policies: &Vec<PolicyItem>) -> (r: String)
    ensures
        r@ == policy_section_text(policies@),
{
    let mut r = owned("## 国务院政策文件库(近 30 天)\n\n");
    if policies.len() == 0 {
        push_str(&mut r, "窗口内未拉到政策条目。\n");
        return r;
    }
    push_str(&mut r, "共 ");
    push_str(&mut r, fmt_u64(policies.len() as u64).as_str());
    push_str(&mut r, " 条,按发布日倒序:\n\n");
    let ghost head = r@;
    let mut i: usize = 0;
    assert(policies@.take(0) =~= Seq::<PolicyItem>::empty());
    while i < policies.len()
        invariant
            i <= policies.len(),
            r@ == head + policy_lines(policies@.take(i as int)),
        decreases policies.len() - i,
    {
        assert(policies@.take(i + 1).drop_last() =~= policies@.take(i as int));
        let p = &policies[i];
        push_str(&mut r, "- **");
        push_str(&mut r, p.publish_date.as_str());
        push_str(&mut r, "** · ");
        push_or_dash(&mut r, &p.publish_org);
        push_str(&mut r, " · ");
        push_str(&mut r, p.title.as_str());
        let ghost mid = r@;
        match &p.policy_id {
            Some(c) => {
                push_str(&mut r, " (");
                push_str(&mut r, c.as_str());
                push_str(&mut r, ")");
            },
            None => {},
        }
        let ghost with_id = r@;
        push_str(&mut r, "\n");
        proof {
            match policies@[i as int].policy_id {
                Some(c) => assert(with_id == mid + (" ("@ + c@ + ")"@)),
                None => assert(with_id == mid + Seq::<char>::empty()),
            }
        }
        i = i + 1;
    }
    assert(policies@.take(policies.len() as int) =~= policies@);
    r
}

/// One release of the calendar.
pub struct MacroEventItem {
    pub publish_date: String,
    pub title: String,
    pub issuing_org: Option<String>,
    pub period: Option<String>,
    pub data_api: Option<String>,
}

/// One calendar row.
pub open spec fn calendar_row(e: MacroEventItem) -> Seq<char> {
    "| "@ + e.publish_date@ + " | "@ + e.title@ + " | "@ + or_dash(e.issuing_org) + " | "@ + or_dash(e.period) + " | "@
        + or_dash(e.data_api) + " |\n"@
}

/// The rows of the calendar.
pub open spec fn calendar_rows(s: Seq<MacroEventItem>) -> Seq<char>
    decreases s.len(),
{
    if s.len() == 0 {
        Seq::empty()
    } else {
        calendar_rows(s.drop_last()) + calendar_row(s.last())
    }
}

/// The calendar section: a table of releases, or a note that the window
/// held none.
pub open spec fn calendar_section_text(s: Seq<MacroEventItem>) -> Seq<char> {
    "## 中国宏观数据发布日历(未来 14 天)\n\n"@ + if s.len() == 0 {
        "窗口内未拉到日历项(上游 token 当前对 start/end 过滤支持有限)。\n"@
    } else {
        "| 公布日 | 指标 | 发布单位 | 数据期 | 上游 API |\n|---|---|---|---|---|\n"@ + calendar_rows(s)
    }
}

fn push_calendar_row(out: &mut String, e: &MacroEventItem)
    ensures
        final(out)@ == old(out)@ + calendar_row(*e),
{
    let ghost start = out@;
    push_str(out, "| ");
    push_str(out, e.publish_date.as_str());
    push_str(out, " | ");
    push_str(out, e.title.as_str());
    push_str(out, " | ");
    push_or_dash(out, &e.issuing_org);
    push_str(out, " | ");
    push_or_dash(out, &e.period);
    push_str(out, " | ");
    push_or_dash(out, &e.data_api);
    push_str(out, " |\n");
    assert(out@ =~= start + calendar_row(*e));
}

/// The calendar section.
pub fn calendar_section(events: &Vec<MacroEventItem>) -> (r: String)
    ensures
        r@ == calendar_section_text(events@),
{
    let mut r = owned("## 中国宏观数据发布日历(未来 14 天)\n\n");
    if events.len() == 0 {
        push_str(&mut r, "窗口内未拉到日历项(上游 token 当前对 start/end 过滤支持有限)。\n");
        return r;
    }
    push_str(&mut r, "| 公布日 | 指标 | 发布单位 | 数据期 | 上游 API |\n|---|---|---|---|---|\n");
    let ghost head = r@;
    let mut i: usize = 0;
    assert(events@.take(0) =~= Seq::<MacroEventItem>::empty());
    while i < events.len()
        invariant
            i <= events.len(),
            r@ == head + calendar_rows(events@.take(i as int)),
        decreases events.len() - i,
    {
        assert(events@.take(i + 1).drop_last() =~= events@.take(i as int));
        push_calendar_row(&mut r, &events[i]);
        i = i + 1;
    }
    assert(events@.take(events.len() as int) =~= events@);
    r
}


/// The card of the tool: its display name and card kind.
pub fn ui() -> (u: ToolUi)
    ensures
        u.display_name@ == "宏观指标"@,
        card_of(u.result) == Some("macro_indicators"@),
{
    ToolUi { display_name: "宏观指标", result: ResultArtifact::Card("macro_indicators") }
}

/// The card summary of a call: its focus.
pub open spec fn ui_summary_of(args: Json) -> Seq<char> {
    "宏观 · "@ + str_or(args, "focus"@, "inflation"@)
}

/// `ui_summary_of` the call's arguments.
pub fn ui_summary(args: &Json) -> (r: String)
    ensures
        r@ == ui_summary_of(*args),
{
    let f = str_arg_or(args, "focus", "inflation");
    let mut out = owned("宏观 · ");
    push_str(&mut out, f);
    out
}


/// The reply of a call: the focus's markdown and the closing lines; the
/// payload `{"kind": "macro_indicators", "focus", "data",
/// "empty_dimensions", "sources"}`.
pub fn indicators_reply(focus: &str, md: String, data: Json, c: &Coverage) -> (r: ToolOutcome)
    ensures
        r.model_output@ == md@ + closing_text(views(c.empty_dimensions@), views(c.sources@)),
        !r.is_error,
        r.display_payload.get_spec("kind"@) matches Some(Json::String(k)) && k@ == "macro_indicators"@,
        r.display_payload.get_spec("focus"@) matches Some(Json::String(f)) && f@ == focus@,
        r.display_payload.get_spec("empty_dimensions"@) matches Some(Json::Array(a)) && str_items(a@) == views(
            c.empty_dimensions@,
        ),
        r.display_payload.get_spec("sources"@) matches Some(Json::Array(s)) && str_items(s@) == views(c.sources@),
        r.display_payload.get_spec("data"@) == Some(data),
        r.debug_payload.get_spec("focus"@) matches Some(Json::String(f)) && f@ == focus@,
{
    let mut text = md;
    let closing = closing_lines(c);
    push_str(&mut text, closing.as_str());
    gap_reply("macro_indicators", focus, text, data, c)
}

} // verus!
