//! `chart_data`: its card. The call's arguments are checked in
//! `tool_args`; its bars are floating point.
use vstd::prelude::*;

use crate::coverage::{
    array_at, array_member, bool_at, bool_member, coverage_reply, coverage_tail, json_at,
    lemma_head, member, str_at, text_member, u64_at, u64_member,
};
use crate::tools::ToolOutcome;
use crate::coverage::Coverage;

use crate::json::Json;
use crate::text::{owned, push_str};
use crate::tool_args::str_or;
use crate::tools::{card_of, snippet, str_arg_or, summary_snippet, ResultArtifact, ToolUi};

verus! {

/// The card of the tool: its display name and card kind.
pub fn ui() -> (u: ToolUi)
    ensures
        u.display_name@ == "K 线数据"@,
        card_of(u.result) == Some("chart_data"@),
{
    ToolUi { display_name: "K 线数据", result: ResultArtifact::Card("chart_data") }
}

/// The card summary of a call: its symbol, as a snippet, and its range
/// (three months by default).
pub open spec fn ui_summary_of(args: Json) -> Seq<char> {
    "K 线 · "@ + snippet(str_or(args, "symbol"@, ""@)) + " · "@ + str_or(args, "range"@, "3m"@)
}

/// `ui_summary_of` the call's arguments.
pub fn ui_summary(args: &Json) -> (r: String)
    ensures
        r@ == ui_summary_of(*args),
{
    let s = str_arg_or(args, "symbol", "");
    let r = str_arg_or(args, "range", "3m");
    let mut out = owned("K 线 · ");
    push_str(&mut out, summary_snippet(s).as_str());
    push_str(&mut out, " · ");
    push_str(&mut out, r);
    out
}


/// The reply of a call: the range summary `md`, and the payload
/// `{"kind": "chart_data", "symbol", "range", "view", "candles",
/// "indicators", "moving_averages", "empty_dimensions", "sources"}`; the
/// debug view names the symbol as given and as normalised, the range and
/// the view.
pub fn chart_reply(
    dotted: &str,
    raw: &str,
    range: &str,
    view: &str,
    candles: Json,
    indicators: Json,
    moving_averages: Json,
    md: String,
    c: &Coverage,
) -> (r: ToolOutcome)
    ensures
        !r.is_error,
        r.model_output == md,
        r.display_payload matches Json::Object(m) && str_at(m@, 0, "kind"@, "chart_data"@) && str_at(
            m@,
            1,
            "symbol"@,
            dotted@,
        ) && str_at(m@, 2, "range"@, range@) && str_at(m@, 3, "view"@, view@) && json_at(m@, 4, "candles"@, candles)
            && json_at(m@, 5, "indicators"@, indicators) && json_at(m@, 6, "moving_averages"@, moving_averages)
            && coverage_tail(m@, 7, *c),
        r.debug_payload matches Json::Object(d) && d@.len() == 4 && str_at(d@, 0, "symbol_input"@, raw@) && str_at(
            d@,
            1,
            "symbol_normalized"@,
            dotted@,
        ) && str_at(d@, 2, "range"@, range@) && str_at(d@, 3, "view"@, view@),
{
    let mut head: Vec<(String, Json)> = Vec::new();
    head.push(text_member("kind", "chart_data"));
    head.push(text_member("symbol", dotted));
    head.push(text_member("range", range));
    head.push(text_member("view", view));
    head.push(member("candles", candles));
    head.push(member("indicators", indicators));
    head.push(member("moving_averages", moving_averages));
    let mut dm: Vec<(String, Json)> = Vec::new();
    dm.push(text_member("symbol_input", raw));
    dm.push(text_member("symbol_normalized", dotted));
    dm.push(text_member("range", range));
    dm.push(text_member("view", view));
    let ghost h = head@;
    let r = coverage_reply(md, head, c, Json::Object(dm));
    proof {
        lemma_head(r.display_payload->Object_0@, h);
    }
    r
}

} // verus!
