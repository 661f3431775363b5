//! `market_pulse`: its card. The call's symbol list is checked in
//! `tool_args`; its quotes and indicators are floating point.
use vstd::prelude::*;

use crate::coverage::{
    array_at, array_member, bool_at, bool_member, closing_lines, closing_text, coverage_reply, coverage_tail, json_at,
    lemma_head, member, str_at, text_member, u64_at, u64_member,
};
use crate::tools::ToolOutcome;
use crate::coverage::Coverage;

use crate::json::{arg_array, get_array, Json};
use crate::text::{decimal, fmt_u64, owned, push_str, views};
use crate::tools::{card_of, ResultArtifact, ToolUi};

verus! {

/// The card of the tool: its display name and card kind.
pub fn ui() -> (u: ToolUi)
    ensures
        u.display_name@ == "实时多股"@,
        card_of(u.result) == Some("market_pulse"@),
{
    ToolUi { display_name: "实时多股", result: ResultArtifact::Card("market_pulse") }
}

/// The card summary of a call: how many symbols it names (none when the
/// list is absent).
pub open spec fn ui_summary_of(args: Json) -> Seq<char> {
    let n: nat = match arg_array(args, "symbols"@) {
        Some(a) => a.len(),
        None => 0,
    };
    "实时 · "@ + decimal(n) + " 只"@
}

/// `ui_summary_of` the call's arguments.
pub fn ui_summary(args: &Json) -> (r: String)
    ensures
        r@ == ui_summary_of(*args),
{
    let n: usize = match get_array(args, "symbols") {
        Some(a) => a.len(),
        None => 0,
    };
    let mut out = owned("实时 · ");
    push_str(&mut out, fmt_u64(n as u64).as_str());
    push_str(&mut out, " 只");
    out
}


/// The note that closes every reply.
pub const RAW_INDICATOR_NOTE: &'static str = "\n_技术指标值原样,agent 自行判断'超买/超卖'。_\n";

/// The reply of a call: the snapshot table `md`, the closing lines and
/// the note on raw indicator values; the payload `{"kind":
/// "market_pulse", "symbols", "rows", "empty_dimensions", "sources"}`,
/// the debug view giving the symbol count.
pub fn pulse_reply(symbols: &Vec<String>, rows: Json, md: String, c: &Coverage) -> (r: ToolOutcome)
    ensures
        !r.is_error,
        r.model_output@ == md@ + closing_text(views(c.empty_dimensions@), views(c.sources@)) + RAW_INDICATOR_NOTE@,
        r.display_payload matches Json::Object(m) && str_at(m@, 0, "kind"@, "market_pulse"@) && array_at(
            m@,
            1,
            "symbols"@,
            views(symbols@),
        ) && json_at(m@, 2, "rows"@, rows) && coverage_tail(m@, 3, *c),
        r.debug_payload matches Json::Object(d) && d@.len() == 1 && u64_at(d@, 0, "count"@, symbols@.len() as u64),
{
    let mut text = md;
    let closing = closing_lines(c);
    push_str(&mut text, closing.as_str());
    push_str(&mut text, RAW_INDICATOR_NOTE);
    let mut head: Vec<(String, Json)> = Vec::new();
    head.push(text_member("kind", "market_pulse"));
    head.push(array_member("symbols", symbols));
    head.push(member("rows", rows));
    let mut dm: Vec<(String, Json)> = Vec::new();
    dm.push(u64_member("count", symbols.len() as u64));
    let ghost h = head@;
    let r = coverage_reply(text, head, c, Json::Object(dm));
    proof {
        lemma_head(r.display_payload->Object_0@, h);
    }
    r
}

} // verus!
