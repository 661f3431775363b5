//! Industry landscape: the search keyword of a Shenwan industry name.
use vstd::prelude::*;

use crate::coverage::{
    closing_lines, closing_text, coverage_reply, coverage_tail, json_at, lemma_head, member, str_at, text_member,
    Coverage,
};
use crate::text::views;
use crate::tools::ToolOutcome;

use crate::tools::{card_of, str_arg_or, summary_snippet, snippet, ToolUi, ResultArtifact};
use crate::tool_args::str_or;
use crate::json::Json;

use crate::text::{chars_of, is_digit, owned, push_str, string_of, trim, trim_chars};

verus! {

/// A trailing tier marker: a Roman numeral Ⅰ–Ⅴ, or an ASCII digit when
/// more than two characters would remain before it.
pub open spec fn is_tier_marker(s: Seq<char>) -> bool {
    s.len() > 0 && {
        let last = s.last();
        ||| last == 'Ⅰ'
        ||| last == 'Ⅱ'
        ||| last == 'Ⅲ'
        ||| last == 'Ⅳ'
        ||| last == 'Ⅴ'
        ||| (is_digit(last) && s.len() > 2)
    }
}

/// `s` with its trailing tier markers removed.
pub open spec fn strip_tiers(s: Seq<char>) -> Seq<char>
    decreases s.len(),
{
    if is_tier_marker(s) {
        strip_tiers(s.drop_last())
    } else {
        s
    }
}

/// The keyword of an industry name: trimmed, trailing tier markers
/// removed, trimmed again (`白酒Ⅱ` → `白酒`).
pub open spec fn keyword(industry: Seq<char>) -> Seq<char> {
    trim(strip_tiers(trim(industry)))
}

/// Whether `last`, ending a name of `len` characters, is a tier marker.
fn is_tier_exec(last: char, len: usize) -> (r: bool)
    ensures
        r == (last == 'Ⅰ' || last == 'Ⅱ' || last == 'Ⅲ' || last == 'Ⅳ' || last == 'Ⅴ' || (is_digit(
            last,
        ) && len > 2)),
{
    last == 'Ⅰ' || last == 'Ⅱ' || last == 'Ⅲ' || last == 'Ⅳ' || last == 'Ⅴ' || ('0' <= last && last
        <= '9' && len > 2)
}

/// `keyword` of an industry name.
pub fn industry_keyword(industry: &str) -> (r: String)
    ensures
        r@ == keyword(industry@),
{
    let v = chars_of(industry);
    let t = trim_chars(v.as_slice());
    let mut end: usize = t.len();
    assert(t@.take(end as int) =~= t@);
    while end > 0 && is_tier_exec(t[end - 1], end)
        invariant
            end <= t@.len(),
            strip_tiers(t@) == strip_tiers(t@.take(end as int)),
        decreases end,
    {
        assert(t@.take(end as int).drop_last() =~= t@.take(end - 1));
        end = end - 1;
    }
    let cut = trim_chars(&t.as_slice()[0..end]);
    assert(t@.subrange(0, end as int) =~= t@.take(end as int));
    string_of(cut.as_slice())
}


/// The card of the tool: its display name and card kind.
pub fn ui() -> (u: ToolUi)
    ensures
        u.display_name@ == "行业全景"@,
        card_of(u.result) == Some("industry_landscape"@),
{
    ToolUi { display_name: "行业全景", result: ResultArtifact::Card("industry_landscape") }
}

/// The card summary of a call: its target, as a snippet, and its focus.
pub open spec fn ui_summary_of(args: Json) -> Seq<char> {
    "行业 · "@ + snippet(str_or(args, "target"@, ""@)) + " · "@ + str_or(args, "focus"@, "leaders"@)
}

/// `ui_summary_of` the call's arguments.
pub fn ui_summary(args: &Json) -> (r: String)
    ensures
        r@ == ui_summary_of(*args),
{
    let t = str_arg_or(args, "target", "");
    let f = str_arg_or(args, "focus", "leaders");
    let mut out = owned("行业 · ");
    push_str(&mut out, summary_snippet(t).as_str());
    push_str(&mut out, " · ");
    push_str(&mut out, f);
    out
}


/// The reply of a call: the focus's markdown and the closing lines; the
/// payload `{"kind": "industry_landscape", "target", "industry", "focus",
/// "data", "empty_dimensions", "sources"}`, the debug view naming the
/// target and the focus.
pub fn landscape_reply(target: &str, industry: &str, focus: &str, md: String, data: Json, c: &Coverage) -> (r: ToolOutcome)
    ensures
        !r.is_error,
        r.model_output@ == md@ + closing_text(views(c.empty_dimensions@), views(c.sources@)),
        r.display_payload matches Json::Object(m) && str_at(m@, 0, "kind"@, "industry_landscape"@) && str_at(
            m@,
            1,
            "target"@,
            target@,
        ) && str_at(m@, 2, "industry"@, industry@) && str_at(m@, 3, "focus"@, focus@) && json_at(m@, 4, "data"@, data)
            && coverage_tail(m@, 5, *c),
        r.debug_payload matches Json::Object(d) && d@.len() == 2 && str_at(d@, 0, "target"@, target@) && str_at(
            d@,
            1,
            "focus"@,
            focus@,
        ),
{
    let mut text = md;
    let closing = closing_lines(c);
    push_str(&mut text, closing.as_str());
    let mut head: Vec<(String, Json)> = Vec::new();
    head.push(text_member("kind", "industry_landscape"));
    head.push(text_member("target", target));
    head.push(text_member("industry", industry));
    head.push(text_member("focus", focus));
    head.push(member("data", data));
    let mut dm: Vec<(String, Json)> = Vec::new();
    dm.push(text_member("target", target));
    dm.push(text_member("focus", focus));
    let ghost h = head@;
    let r = coverage_reply(text, head, c, Json::Object(dm));
    proof {
        lemma_head(r.display_payload->Object_0@, h);
    }
    r
}

/// What the classification lookup of a symbol target gave: nothing asked
/// (the target names an industry), an industry, no industry, or a
/// failure.
pub enum IndustryLookup {
    NotASymbol,
    Found(String),
    Unclassified,
    Failed(String),
}

/// The message of a lookup that ends the call.
pub open spec fn lookup_stop_text(target: Seq<char>, l: IndustryLookup) -> Seq<char> {
    match l {
        IndustryLookup::Unclassified => "## "@ + target + "\n\n上游未给该 symbol 的行业分类。\n"@,
        IndustryLookup::Failed(m) => "## "@ + target + "\n\n查询行业失败: "@ + m@ + "\n"@,
        _ => Seq::empty(),
    }
}

/// The missing dimension of a lookup that ends the call.
pub open spec fn lookup_stop_dimension(l: IndustryLookup) -> Seq<char> {
    match l {
        IndustryLookup::Failed(m) => "stock_basic:"@ + m@,
        _ => "industry_unknown"@,
    }
}

/// The industry a call surveys: the target itself when it is no symbol,
/// the symbol's industry when the lookup found one (its source then
/// answered); otherwise the call ends with a successful reply that says
/// why, whose payload `{"kind", "target", "focus", "empty_dimensions",
/// "sources"}` names the gap, never an error.
pub fn resolve_industry(target: &str, focus: &str, lookup: IndustryLookup, today: &str, c: &mut Coverage) -> (r:
    Result<String, ToolOutcome>)
    ensures
        match lookup {
            IndustryLookup::NotASymbol => r matches Ok(i) && i@ == target@ && final(c).sources@ == old(c).sources@
                && final(c).empty_dimensions@ == old(c).empty_dimensions@,
            IndustryLookup::Found(ind) => r matches Ok(i) && i@ == ind@ && views(final(c).sources@) == views(
                old(c).sources@,
            ).push("Tushare stock_basic"@ + " @ "@ + today@) && final(c).empty_dimensions@ == old(c).empty_dimensions@,
            _ => {
                &&& views(final(c).empty_dimensions@) == views(old(c).empty_dimensions@).push(
                    lookup_stop_dimension(lookup),
                )
                &&& final(c).sources@ == old(c).sources@
                &&& r matches Err(o) && !o.is_error && o.model_output@ == lookup_stop_text(target@, lookup)
                    && (o.display_payload matches Json::Object(m) && str_at(m@, 0, "kind"@, "industry_landscape"@)
                    && str_at(m@, 1, "target"@, target@) && str_at(m@, 2, "focus"@, focus@) && coverage_tail(
                    m@,
                    3,
                    *final(c),
                )) && (o.debug_payload matches Json::Object(d) && d@.len() == 1 && str_at(
                    d@,
                    0,
                    "target"@,
                    target@,
                ))
            },
        },
{
    match lookup {
        IndustryLookup::NotASymbol => Ok(owned(target)),
        IndustryLookup::Found(ind) => {
            c.record(true, "Tushare stock_basic", today, owned("industry_unknown"));
            Ok(ind)
        },
        IndustryLookup::Unclassified => {
            c.record(false, "Tushare stock_basic", today, owned("industry_unknown"));
            let mut text = owned("## ");
            push_str(&mut text, target);
            push_str(&mut text, "\n\n上游未给该 symbol 的行业分类。\n");
            Err(stop_reply(target, focus, text, c))
        },
        IndustryLookup::Failed(m) => {
            let mut dim = owned("stock_basic:");
            push_str(&mut dim, m.as_str());
            c.record(false, "Tushare stock_basic", today, dim);
            let mut text = owned("## ");
            push_str(&mut text, target);
            push_str(&mut text, "\n\n查询行业失败: ");
            push_str(&mut text, m.as_str());
            push_str(&mut text, "\n");
            Err(stop_reply(target, focus, text, c))
        },
    }
}

/// The reply of a call that ends at the lookup.
fn stop_reply(target: &str, focus: &str, text: String, c: &Coverage) -> (o: ToolOutcome)
    ensures
        !o.is_error,
        o.model_output == text,
        o.display_payload matches Json::Object(m) && str_at(m@, 0, "kind"@, "industry_landscape"@) && str_at(
            m@,
            1,
            "target"@,
            target@,
        ) && str_at(m@, 2, "focus"@, focus@) && coverage_tail(m@, 3, *c),
        o.debug_payload matches Json::Object(d) && d@.len() == 1 && str_at(d@, 0, "target"@, target@),
{
    let mut head: Vec<(String, Json)> = Vec::new();
    head.push(text_member("kind", "industry_landscape"));
    head.push(text_member("target", target));
    head.push(text_member("focus", focus));
    let mut dm: Vec<(String, Json)> = Vec::new();
    dm.push(text_member("target", target));
    let ghost h = head@;
    let r = coverage_reply(text, head, c, Json::Object(dm));
    proof {
        lemma_head(r.display_payload->Object_0@, h);
    }
    r
}

} // verus!
