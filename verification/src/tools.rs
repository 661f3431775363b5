//! The tool set: what one tool call produces, which tools are offered to
//! the model, and how a call is routed.
use vstd::prelude::*;

use crate::json::{find_member, get_str, json_str, Json};
use crate::tool_args::str_or;
use crate::text::{
    chars_of, collapse, collapse_chars, contains, owned, push_str, str_contains, str_eq,
    string_of, truncate, truncate_chars, views,
};

verus! {

/// The outcome of one tool call: the model's view, the structured body
/// of the canvas card, debug detail, and whether the call failed.
pub struct ToolOutcome {
    pub model_output: String,
    pub display_payload: Json,
    pub debug_payload: Json,
    pub is_error: bool,
}

/// `{"error": message}`.
pub open spec fn error_object(j: Json, message: Seq<char>) -> bool {
    match j {
        Json::Object(members) => {
            &&& members@.len() == 1
            &&& members@[0].0@ == "error"@
            &&& members@[0].1 matches Json::String(m) && m@ == message
        },
        _ => false,
    }
}

/// `{"error": message}`.
fn error_json(message: &str) -> (j: Json)
    ensures
        error_object(j, message@),
{
    let mut members: Vec<(String, Json)> = Vec::new();
    members.push((owned("error"), Json::String(owned(message))));
    Json::Object(members)
}

impl ToolOutcome {
    /// A successful outcome.
    pub fn ok(model_output: String, display_payload: Json, debug_payload: Json) -> (r: ToolOutcome)
        ensures
            r.model_output == model_output,
            r.display_payload == display_payload,
            r.debug_payload == debug_payload,
            !r.is_error,
    {
        ToolOutcome { model_output, display_payload, debug_payload, is_error: false }
    }

    /// A failed outcome: the message is the model's view, and both
    /// payloads are `{"error": message}`.
    pub fn error(message: String) -> (r: ToolOutcome)
        ensures
            r.model_output@ == message@,
            error_object(r.display_payload, message@),
            error_object(r.debug_payload, message@),
            r.is_error,
    {
        let display_payload = error_json(message.as_str());
        let debug_payload = error_json(message.as_str());
        ToolOutcome { display_payload, debug_payload, model_output: message, is_error: true }
    }
}

/// Where a tool's result renders on the workbench.
#[derive(Debug, Clone, Copy, PartialEq)]
pub enum ResultArtifact {
    Card(&'static str),
    Plan,
}

/// UI-only metadata of a tool: the name on its card and where its
/// result renders.
pub struct ToolUi {
    pub display_name: &'static str,
    pub result: ResultArtifact,
}

/// The card kind of a result that renders as a card.
pub open spec fn card_of(r: ResultArtifact) -> Option<Seq<char>> {
    match r {
        ResultArtifact::Card(k) => Some(k@),
        ResultArtifact::Plan => None,
    }
}

/// A string argument, or `default` where it is absent or not a string.
pub fn str_arg_or<'a>(args: &'a Json, key: &str, default: &'a str) -> (r: &'a str)
    ensures
        r@ == str_or(*args, key@, default@),
{
    match get_str(args, key) {
        Some(s) => s,
        None => default,
    }
}

/// Per-call context of the dispatch path: the application state when one
/// is bound, the session, the parent turn and the nesting depth.
pub struct DispatchCtx<'a, S> {
    pub st: Option<&'a S>,
    pub session_id: &'a str,
    pub parent_turn_id: &'a str,
    pub parent_depth: u32,
}

impl<'a, S> DispatchCtx<'a, S> {
    /// A context with no state bound, empty ids and depth zero.
    pub fn for_test() -> (r: Self)
        ensures
            r.st is None,
            r.session_id@ == ""@,
            r.parent_turn_id@ == ""@,
            r.parent_depth == 0,
    {
        DispatchCtx { st: None, session_id: "", parent_turn_id: "", parent_depth: 0 }
    }
}

/// The tools offered to the model, in order: the fixed kit, `task`
/// always, and `use_skill` only when at least one skill is loaded.
pub open spec fn offered_tools(skills_loaded: bool) -> Seq<Seq<char>> {
    seq![
        "web_fetch"@,
        "update_plan"@,
        "corpus_search"@,
        "corpus_read"@,
        "macro_indicators"@,
        "industry_landscape"@,
        "market_overview"@,
        "stock_overview"@,
        "recent_actions"@,
        "market_pulse"@,
        "research_sentiment"@,
        "chart_data"@,
        "read_pdf"@,
        "task"@,
    ] + if skills_loaded {
        seq!["use_skill"@]
    } else {
        Seq::empty()
    }
}

/// `task` is offered whatever is loaded; `use_skill` exactly when a skill is.
pub proof fn lemma_offered_tools(skills_loaded: bool)
    ensures
        offered_tools(skills_loaded).contains("task"@),
        offered_tools(skills_loaded).contains("use_skill"@) <==> skills_loaded,
{
    reveal_strlit("task");
    reveal_strlit("use_skill");
    let s = offered_tools(skills_loaded);
    assert(s[13] == "task"@);
    if skills_loaded {
        assert(s[14] == "use_skill"@);
    } else {
        assert forall|i: int| 0 <= i < s.len() implies s[i] != "use_skill"@ by {
            reveal_strlit("web_fetch");
            reveal_strlit("update_plan");
            reveal_strlit("corpus_search");
            reveal_strlit("corpus_read");
            reveal_strlit("macro_indicators");
            reveal_strlit("industry_landscape");
            reveal_strlit("market_overview");
            reveal_strlit("stock_overview");
            reveal_strlit("recent_actions");
            reveal_strlit("market_pulse");
            reveal_strlit("research_sentiment");
            reveal_strlit("chart_data");
            reveal_strlit("read_pdf");
            assert(s[i].len() != 9 || s[i][0] != 'u');
        }
    }
}

/// Every tool offered to the model can be dispatched: no offered name
/// gets the unknown-tool reply.
pub proof fn lemma_offered_tools_dispatch(skills_loaded: bool, has_state: bool, i: int)
    requires
        0 <= i < offered_tools(skills_loaded).len(),
    ensures
        dispatchable(offered_tools(skills_loaded)[i]),
        offered_tools(skills_loaded)[i] != "task"@ || has_state ==> dispatch_error_text(
            offered_tools(skills_loaded)[i],
            has_state,
        ) is None,
{
}

/// The names of the tools offered to the model.
pub fn specs(skills_loaded: bool) -> (r: Vec<String>)
    ensures
        views(r@) == offered_tools(skills_loaded),
{
    let mut v: Vec<String> = Vec::new();
    v.push(owned("web_fetch"));
    v.push(owned("update_plan"));
    v.push(owned("corpus_search"));
    v.push(owned("corpus_read"));
    v.push(owned("macro_indicators"));
    v.push(owned("industry_landscape"));
    v.push(owned("market_overview"));
    v.push(owned("stock_overview"));
    v.push(owned("recent_actions"));
    v.push(owned("market_pulse"));
    v.push(owned("research_sentiment"));
    v.push(owned("chart_data"));
    v.push(owned("read_pdf"));
    v.push(owned("task"));
    if skills_loaded {
        v.push(owned("use_skill"));
    }
    assert(views(v@) =~= offered_tools(skills_loaded));
    v
}

/// The tools a call can be routed to.
pub open spec fn dispatchable(name: Seq<char>) -> bool {
    ||| name == "web_fetch"@
    ||| name == "update_plan"@
    ||| name == "corpus_search"@
    ||| name == "corpus_read"@
    ||| name == "use_skill"@
    ||| name == "macro_indicators"@
    ||| name == "industry_landscape"@
    ||| name == "market_overview"@
    ||| name == "stock_overview"@
    ||| name == "recent_actions"@
    ||| name == "market_pulse"@
    ||| name == "research_sentiment"@
    ||| name == "chart_data"@
    ||| name == "read_pdf"@
    ||| name == "task"@
}

/// The message of a call that cannot run: `task` without a bound
/// application state, or a name outside the tool set.
pub open spec fn dispatch_error_text(name: Seq<char>, has_state: bool) -> Option<Seq<char>> {
    if name == "task"@ && !has_state {
        Some("task: tool not available in this dispatch context (no AppState bound)"@)
    } else if dispatchable(name) {
        None
    } else {
        Some("unknown tool '"@ + name + "' — it is not in the available tool set"@)
    }
}

/// The error outcome of a call that cannot run, or nothing when the call
/// goes to its tool.
pub fn dispatch_error(name: &str, has_state: bool) -> (r: Option<ToolOutcome>)
    ensures
        match dispatch_error_text(name@, has_state) {
            Some(m) => r matches Some(o) && o.is_error && o.model_output@ == m && error_object(
                o.display_payload,
                m,
            ),
            None => r is None,
        },
{
    if str_eq(name, "task") && !has_state {
        return Some(
            ToolOutcome::error(
                owned("task: tool not available in this dispatch context (no AppState bound)"),
            ),
        );
    }
    let known = str_eq(name, "web_fetch") || str_eq(name, "update_plan") || str_eq(
        name,
        "corpus_search",
    ) || str_eq(name, "corpus_read") || str_eq(name, "use_skill") || str_eq(
        name,
        "macro_indicators",
    ) || str_eq(name, "industry_landscape") || str_eq(name, "market_overview") || str_eq(
        name,
        "stock_overview",
    ) || str_eq(name, "recent_actions") || str_eq(name, "market_pulse") || str_eq(
        name,
        "research_sentiment",
    ) || str_eq(name, "chart_data") || str_eq(name, "read_pdf") || str_eq(name, "task");
    if known {
        return None;
    }
    let mut m = owned("unknown tool '");
    push_str(&mut m, name);
    push_str(&mut m, "' — it is not in the available tool set");
    Some(ToolOutcome::error(m))
}

/// A value as a short single-line snippet: whitespace runs collapsed to
/// single spaces, cut to forty characters with `…` appended.
pub open spec fn snippet(s: Seq<char>) -> Seq<char> {
    truncate(collapse(s), 40, seq!['…'])
}

/// `snippet` of a value.
pub fn summary_snippet(s: &str) -> (r: String)
    ensures
        r@ == snippet(s@),
{
    let v = chars_of(s);
    let one_line = collapse_chars(v.as_slice());
    let t = truncate_chars(one_line.as_slice(), 40, "…");
    proof {
        reveal_strlit("…");
    }
    string_of(t.as_slice())
}

/// The lower-case mapping of a text, as `str::to_lowercase` computes it.
pub uninterp spec fn lower_case(s: Seq<char>) -> Seq<char>;

/// `A`–`Z` mapped to `a`–`z`, every other character kept.
pub open spec fn ascii_lower_text(s: Seq<char>) -> Seq<char> {
    s.map_values(
        |c: char|
            if 'A' <= c && c <= 'Z' {
                ((c as u32) + 32) as char
            } else {
                c
            },
    )
}

/// `str::to_lowercase`; its result is `lower_case` of the argument, and
/// on an ASCII text it maps `A`–`Z` to `a`–`z` and keeps every other
/// character, as Unicode's case mapping does for ASCII.
#[verifier::external_body]
pub(crate) fn to_lower(s: &str) -> (r: String)
    ensures
        r@ == lower_case(s@),
        crate::text::all_ascii(s@) ==> r@ == ascii_lower_text(s@),
{
    s.to_lowercase()
}

/// A failure counts as an abort when the call was cancelled or its
/// message, lower-cased, mentions `aborted`.
pub open spec fn is_abort(cancelled: bool, message: Seq<char>) -> bool {
    cancelled || contains(lower_case(message), "aborted"@)
}

/// `is_abort` of a failure.
pub fn is_abort_error(cancelled: bool, message: &str) -> (r: bool)
    ensures
        r == is_abort(cancelled, message@),
{
    if cancelled {
        return true;
    }
    let lower = to_lower(message);
    str_contains(lower.as_str(), "aborted")
}


// ---------------------------------------------------------------------
// Function schemas
// ---------------------------------------------------------------------
/// A tool as offered to the model: a function with its name, its
/// description and the JSON schema of its parameters.
pub enum ToolSpec {
    Function { name: String, description: String, parameters: Json },
}

/// The keys of members, in order.
pub open spec fn member_keys(m: Seq<(String, Json)>) -> Seq<Seq<char>> {
    m.map_values(|e: (String, Json)| e.0@)
}

/// A parameter schema: an object whose properties carry the keys
/// `props`, in order, and whose required keys are `required`.
pub open spec fn schema_shape(j: Json, props: Seq<Seq<char>>, required: Seq<Seq<char>>) -> bool {
    &&& j.get_spec("type"@) matches Some(t) && t.str_spec() == Some("object"@)
    &&& j.get_spec("properties"@) matches Some(Json::Object(m)) && member_keys(m@) == props
    &&& j.get_spec("required"@) matches Some(r) && crate::coverage::is_string_array(r, required)
}

/// `{"type": ty, "description": description}`.
pub fn typed(ty: &str, description: &str) -> (j: Json)
    ensures
        j matches Json::Object(m) && m@.len() == 2,
{
    let mut m: Vec<(String, Json)> = Vec::new();
    m.push((owned("type"), json_str(ty)));
    m.push((owned("description"), json_str(description)));
    Json::Object(m)
}

/// The JSON array of the given texts.
pub fn text_array(items: Vec<&str>) -> (j: Json)
    ensures
        j matches Json::Array(a) && a@.len() == items@.len(),
{
    let mut a: Vec<Json> = Vec::new();
    let mut i: usize = 0;
    while i < items.len()
        invariant
            i <= items.len(),
            a@.len() == i,
        decreases items.len() - i,
    {
        a.push(json_str(items[i]));
        i = i + 1;
    }
    Json::Array(a)
}

/// `{"type": "object", "properties": {..}, "required": [..]}`.
pub fn object_schema(properties: Vec<(String, Json)>, required: Vec<String>) -> (j: Json)
    ensures
        schema_shape(j, member_keys(properties@), views(required@)),
{
    let ghost props = properties@;
    let req = crate::coverage::string_array(&required);
    let mut m: Vec<(String, Json)> = Vec::new();
    m.push((owned("type"), json_str("object")));
    m.push((owned("properties"), Json::Object(properties)));
    m.push((owned("required"), req));
    proof {
        reveal_strlit("type");
        reveal_strlit("properties");
        reveal_strlit("required");
        let ms = m@;
        assert(ms[0].0@ == "type"@);
        assert(ms[1].0@ == "properties"@);
        assert(ms[2].0@ == "required"@);
        assert(("type"@)[0] != ("properties"@)[0]);
        assert(("type"@)[0] != ("required"@)[0]);
        assert(("properties"@)[0] != ("required"@)[0]);
        assert(find_member(ms, "type"@, 0) == Some(0int));
        assert(find_member(ms, "properties"@, 1) == Some(1int));
        assert(find_member(ms, "properties"@, 0) == Some(1int));
        assert(find_member(ms, "required"@, 2) == Some(2int));
        assert(find_member(ms, "required"@, 1) == Some(2int));
        assert(find_member(ms, "required"@, 0) == Some(2int));
    }
    Json::Object(m)
}

/// A string list.
pub fn strings(items: Vec<&str>) -> (v: Vec<String>)
    ensures
        v@.len() == items@.len(),
        forall|i: int| 0 <= i < items@.len() ==> (#[trigger] v@[i])@ == items@[i]@,
{
    let mut v: Vec<String> = Vec::new();
    let mut i: usize = 0;
    while i < items.len()
        invariant
            i <= items.len(),
            v@.len() == i,
            forall|k: int| 0 <= k < i ==> (#[trigger] v@[k])@ == items@[k]@,
        decreases items.len() - i,
    {
        v.push(owned(items[i]));
        i = i + 1;
    }
    v
}


// ---------------------------------------------------------------------
// The card registry
// ---------------------------------------------------------------------
/// The card of a tool by name, over the tools whose modules this library
/// holds: its display name and card kind.
pub open spec fn registered_card(name: Seq<char>) -> Option<(Seq<char>, Seq<char>)> {
    if name == "corpus_search"@ {
        Some(("知识库搜索"@, "corpus_search"@))
    } else if name == "macro_indicators"@ {
        Some(("宏观指标"@, "macro_indicators"@))
    } else if name == "industry_landscape"@ {
        Some(("行业全景"@, "industry_landscape"@))
    } else if name == "market_overview"@ {
        Some(("大盘全景"@, "market_overview"@))
    } else if name == "stock_overview"@ {
        Some(("个股全景"@, "stock_overview"@))
    } else if name == "recent_actions"@ {
        Some(("近期事件流"@, "recent_actions"@))
    } else if name == "market_pulse"@ {
        Some(("实时多股"@, "market_pulse"@))
    } else if name == "research_sentiment"@ {
        Some(("卖方研报"@, "research_sentiment"@))
    } else if name == "chart_data"@ {
        Some(("K 线数据"@, "chart_data"@))
    } else if name == "read_pdf"@ {
        Some(("读取 PDF"@, "pdf_reader"@))
    } else {
        None
    }
}

/// The card of a tool by name; nothing for a name outside the registry.
pub fn ui(name: &str) -> (r: Option<ToolUi>)
    ensures
        match registered_card(name@) {
            Some(card) => r matches Some(u) && u.display_name@ == card.0 && card_of(u.result) == Some(card.1),
            None => r is None,
        },
{
    if str_eq(name, "corpus_search") {
        Some(crate::corpus_search::ui())
    } else if str_eq(name, "macro_indicators") {
        Some(crate::macro_indicators::ui())
    } else if str_eq(name, "industry_landscape") {
        Some(crate::industry_landscape::ui())
    } else if str_eq(name, "market_overview") {
        Some(crate::market_overview::ui())
    } else if str_eq(name, "stock_overview") {
        Some(crate::stock_overview::ui())
    } else if str_eq(name, "recent_actions") {
        Some(crate::recent_actions::ui())
    } else if str_eq(name, "market_pulse") {
        Some(crate::market_pulse::ui())
    } else if str_eq(name, "research_sentiment") {
        Some(crate::research_sentiment::ui())
    } else if str_eq(name, "chart_data") {
        Some(crate::chart_data::ui())
    } else if str_eq(name, "read_pdf") {
        Some(crate::read_pdf::ui())
    } else {
        None
    }
}

/// Every tool with a card is offered and can be dispatched.
pub proof fn lemma_registered_tools_dispatch(name: Seq<char>)
    requires
        registered_card(name) is Some,
    ensures
        dispatchable(name),
        offered_tools(false).contains(name),
{
    let s = offered_tools(false);
    if name == "corpus_search"@ {
        assert(s[2] == name);
    } else if name == "macro_indicators"@ {
        assert(s[4] == name);
    } else if name == "industry_landscape"@ {
        assert(s[5] == name);
    } else if name == "market_overview"@ {
        assert(s[6] == name);
    } else if name == "stock_overview"@ {
        assert(s[7] == name);
    } else if name == "recent_actions"@ {
        assert(s[8] == name);
    } else if name == "market_pulse"@ {
        assert(s[9] == name);
    } else if name == "research_sentiment"@ {
        assert(s[10] == name);
    } else if name == "chart_data"@ {
        assert(s[11] == name);
    } else {
        assert(s[12] == name);
    }
}

} // verus!
