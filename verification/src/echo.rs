//! `echo`: hands its text back unchanged, so that a whole tool call can
//! be exercised with a known result.
use vstd::prelude::*;

use crate::json::{arg_str, get_str, json_str, json_u64, Json};
use crate::text::{chars_of, owned};
use crate::text::push_str;
use crate::tool_args::str_or;
use crate::tools::{card_of, error_object, snippet, str_arg_or, summary_snippet, ResultArtifact, ToolOutcome, ToolUi};

verus! {

/// `{key: value}` where the value satisfies `value_ok`.
pub open spec fn one_member(j: Json, key: Seq<char>, value_ok: spec_fn(Json) -> bool) -> bool {
    j matches Json::Object(members) && members@.len() == 1 && members@[0].0@ == key && value_ok(members@[0].1)
}

/// What an echo call gives: its text back, the text as display payload
/// and its character count as debug payload; an error without text.
pub open spec fn echo_ok(args: Json, r: ToolOutcome) -> bool {
    match arg_str(args, "text"@) {
        None => {
            &&& r.is_error
            &&& r.model_output@ == "echo: missing required string argument 'text'."@
            &&& error_object(r.display_payload, r.model_output@)
            &&& error_object(r.debug_payload, r.model_output@)
        },
        Some(text) => {
            &&& !r.is_error
            &&& r.model_output@ == text
            &&& one_member(r.display_payload, "text"@, |v: Json| v matches Json::String(t) && t@ == text)
            &&& one_member(
                r.debug_payload,
                "char_count"@,
                |v: Json| v matches Json::Number(n) && n.as_u64 == Some(text.len() as u64) && n.text@ == crate::text::decimal(text.len()),
            )
        },
    }
}

fn single(key: &str, value: Json) -> (j: Json)
    ensures
        j matches Json::Object(members) && members@.len() == 1 && members@[0].0@ == key@ && members@[0].1 == value,
{
    let mut members: Vec<(String, Json)> = Vec::new();
    members.push((owned(key), value));
    Json::Object(members)
}

/// Runs an echo call.
pub fn run(args: &Json) -> (r: ToolOutcome)
    ensures
        echo_ok(*args, r),
{
    let text = match get_str(args, "text") {
        Some(t) => t,
        None => return ToolOutcome::error(owned("echo: missing required string argument 'text'.")),
    };
    let n = chars_of(text).len();
    let display = single("text", json_str(text));
    let debug = single("char_count", json_u64(n as u64));
    ToolOutcome::ok(owned(text), display, debug)
}


/// The card of the tool: its display name and card kind.
pub fn ui() -> (u: ToolUi)
    ensures
        u.display_name@ == "回显"@,
        card_of(u.result) == Some("text"@),
{
    ToolUi { display_name: "回显", result: ResultArtifact::Card("text") }
}

/// The card summary of a call: its text, as a snippet.
pub open spec fn ui_summary_of(args: Json) -> Seq<char> {
    "回显 · "@ + snippet(str_or(args, "text"@, ""@))
}

/// `ui_summary_of` the call's arguments.
pub fn ui_summary(args: &Json) -> (r: String)
    ensures
        r@ == ui_summary_of(*args),
{
    let t = str_arg_or(args, "text", "");
    let mut out = owned("回显 · ");
    push_str(&mut out, summary_snippet(t).as_str());
    out
}

} // verus!
