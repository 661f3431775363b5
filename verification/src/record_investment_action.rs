//! `record_investment_action`: check a trade decision draft — named
//! risks, a steelmanned opposing case, a mandate check and observable
//! invalidation conditions — and summarise it for confirmation.
use vstd::prelude::*;

use crate::tools::{member_keys, object_schema, schema_shape, strings, text_array, ToolSpec};

use crate::ask_user_question::{has_text, missing, missing_message};
use crate::coverage::{array_at, array_member, json_at, member, str_at, text_member};
use crate::json::{arg_bool, arg_i64, arg_str, get_bool, get_i64, get_str, json_i64, Json, JsonNumber, json_str, json_u64};
use crate::tushare::take_member;
use crate::text::{decimal, fmt_i64, fmt_u64, owned, push_str, signed_decimal, str_eq, trim, trim_str, views};

verus! {

/// The name the tool is offered under.
pub const TOOL_NAME: &'static str = "record_investment_action";

/// The decision-draft tool.
pub struct RecordInvestmentActionTool;

impl RecordInvestmentActionTool {
    /// The tool.
    pub fn new() -> (r: Self) {
        RecordInvestmentActionTool
    }

    /// The name the tool is offered under.
    pub fn name(&self) -> (r: &'static str)
        ensures
            r@ == TOOL_NAME@,
    {
        TOOL_NAME
    }
}

/// The refusal of a draft without named risks.
pub const RISKS_REQUIRED: &'static str = "validation: 'risks' must contain at least one named, concrete risk. Do NOT retry with fabricated platitudes like 'market volatility'. If you don't have real risks for this trade, the right move is to NOT record the action and explain to the user that this draft cannot be submitted without a real risk list.";

/// The refusal of a draft without an opposing case.
pub const OPPOSING_CASE_REQUIRED: &'static str = "validation: 'opposing_case' must not be empty — record a steelmanned counter-thesis (engage with the reasons a smart investor would take the opposite side). Do NOT retry with a strawman or platitude; if you cannot supply a real counter-thesis, refuse to record and explain why.";

/// The refusal of a draft without invalidation conditions.
pub const INVALIDATION_REQUIRED: &'static str = "validation: 'invalidation_conditions' must not be empty — declare an observable falsifier (price level, EPS revision direction, regulatory event). Do NOT retry with 'if conditions change' or similar non-observable language.";

/// The trimmed, non-blank string items of a list.
pub open spec fn trimmed_items(items: Seq<Json>) -> Seq<Seq<char>>
    decreases items.len(),
{
    if items.len() == 0 {
        Seq::empty()
    } else {
        trimmed_items(items.drop_last()) + match items.last().str_spec() {
            Some(s) => if trim(s).len() == 0 {
                Seq::empty()
            } else {
                seq![trim(s)]
            },
            None => Seq::empty(),
        }
    }
}

/// A list argument of strings: missing, not a list, or holding a
/// non-string are errors; otherwise its trimmed non-blank items.
pub open spec fn string_array(args: Json, key: Seq<char>) -> Result<Seq<Seq<char>>, Seq<char>> {
    match args.get_spec(key) {
        None => Err(missing(key)),
        Some(v) => match v.array_spec() {
            None => Err("'"@ + key + "' must be an array of strings"@),
            Some(items) => if exists|i: int| 0 <= i < items.len() && (#[trigger] items[i]).str_spec() is None {
                Err("'"@ + key + "' entries must be strings"@)
            } else {
                Ok(trimmed_items(items))
            },
        },
    }
}

/// `string_array` of a call argument.
pub fn parse_string_array(args: &Json, key: &str) -> (r: Result<Vec<String>, String>)
    ensures
        match string_array(*args, key@) {
            Ok(items) => r matches Ok(v) && views(v@) == items,
            Err(e) => r matches Err(m) && m@ == e,
        },
{
    let v = match args.get(key) {
        Some(v) => v,
        None => {
            let mut e = owned("missing '");
            push_str(&mut e, key);
            push_str(&mut e, "' argument");
            return Err(e);
        },
    };
    let items = match v.as_array() {
        Some(items) => items,
        None => {
            let mut e = owned("'");
            push_str(&mut e, key);
            push_str(&mut e, "' must be an array of strings");
            return Err(e);
        },
    };
    let mut out: Vec<String> = Vec::new();
    let mut i: usize = 0;
    while i < items.len()
        invariant
            i <= items.len(),
            args.get_spec(key@) == Some(*v),
            v.array_spec() == Some(items@),
            forall|k: int| 0 <= k < i ==> (#[trigger] items@[k]).str_spec() is Some,
            views(out@) == trimmed_items(items@.take(i as int)),
        decreases items.len() - i,
    {
        assert(items@.take(i + 1).drop_last() =~= items@.take(i as int));
        let ghost before = views(out@);
        match items[i].as_str() {
            Some(s) => {
                let t = trim_str(s);
                if !t.as_str().is_empty() {
                    let ghost tv = t@;
                    out.push(t);
                    assert(views(out@) =~= before.push(tv));
                }
            },
            None => {
                assert(items@[i as int].str_spec() is None);
                let mut e = owned("'");
                push_str(&mut e, key);
                push_str(&mut e, "' entries must be strings");
                return Err(e);
            },
        }
        i = i + 1;
    }
    assert(items@.take(items.len() as int) =~= items@);
    Ok(out)
}

/// Why a draft is refused, if it is: the first failed check, in the
/// order ticker, direction, rationale, risks, opposing case, corpus
/// references, mandate check, invalidation conditions.
pub open spec fn action_error(args: Json) -> Option<Seq<char>> {
    if arg_str(args, "ticker"@) is None {
        Some(missing("ticker"@))
    } else if arg_str(args, "direction"@) is None {
        Some(missing("direction"@))
    } else if arg_str(args, "rationale"@) is None {
        Some(missing("rationale"@))
    } else {
        match string_array(args, "risks"@) {
            Err(e) => Some(e),
            Ok(risks) => if risks.len() == 0 {
                Some(RISKS_REQUIRED@)
            } else {
                match arg_str(args, "opposing_case"@) {
                    None => Some(missing("opposing_case"@)),
                    Some(o) => if trim(o).len() == 0 {
                        Some(OPPOSING_CASE_REQUIRED@)
                    } else {
                        match string_array(args, "corpus_refs"@) {
                            Err(e) => Some(e),
                            Ok(_) => mandate_error(args),
                        }
                    },
                }
            },
        }
    }
}

/// The checks after the corpus references: the mandate check must be an
/// object with a boolean `fits_mandate` and non-blank `notes`, and the
/// invalidation conditions must be given and not blank.
pub open spec fn mandate_error(args: Json) -> Option<Seq<char>> {
    match args.get_spec("mandate_check"@) {
        None => Some(missing("mandate_check"@)),
        Some(m) => if !(m is Object) {
            Some("'mandate_check' must be an object"@)
        } else if arg_bool(m, "fits_mandate"@) is None {
            Some("'mandate_check.fits_mandate' must be a boolean"@)
        } else if !has_text(m, "notes"@) {
            Some("'mandate_check.notes' must be a non-empty string"@)
        } else {
            match arg_str(args, "invalidation_conditions"@) {
                None => Some(missing("invalidation_conditions"@)),
                Some(c) => if trim(c).len() == 0 {
                    Some(INVALIDATION_REQUIRED@)
                } else {
                    None
                },
            }
        },
    }
}

/// A checked decision draft (its price and size figures are read apart).
pub struct InvestmentAction {
    pub ticker: String,
    pub direction: String,
    pub rationale: String,
    pub horizon_days: Option<i64>,
    pub risks: Vec<String>,
    pub opposing_case: String,
    pub corpus_refs: Vec<String>,
    pub fits_mandate: bool,
    pub invalidation_conditions: String,
}

/// The trimmed string argument `key` (present by the checks).
pub open spec fn trimmed_arg(args: Json, key: Seq<char>) -> Seq<char> {
    match arg_str(args, key) {
        Some(s) => trim(s),
        None => Seq::empty(),
    }
}

/// What a draft that passes the checks holds.
pub open spec fn action_ok(args: Json, a: InvestmentAction) -> bool {
    &&& a.ticker@ == trimmed_arg(args, "ticker"@)
    &&& a.direction@ == trimmed_arg(args, "direction"@)
    &&& a.rationale@ == trimmed_arg(args, "rationale"@)
    &&& a.horizon_days == arg_i64(args, "horizon_days"@)
    &&& string_array(args, "risks"@) == Ok::<Seq<Seq<char>>, Seq<char>>(views(a.risks@))
    &&& a.opposing_case@ == trimmed_arg(args, "opposing_case"@)
    &&& string_array(args, "corpus_refs"@) == Ok::<Seq<Seq<char>>, Seq<char>>(views(a.corpus_refs@))
    &&& args.get_spec("mandate_check"@) matches Some(m) && arg_bool(m, "fits_mandate"@) == Some(a.fits_mandate)
    &&& a.invalidation_conditions@ == trimmed_arg(args, "invalidation_conditions"@)
}

/// A trimmed string argument, or the error naming it.
fn trimmed_required(args: &Json, key: &str) -> (r: Result<String, String>)
    ensures
        match arg_str(*args, key@) {
            Some(s) => r matches Ok(t) && t@ == trim(s),
            None => r matches Err(e) && e@ == missing(key@),
        },
{
    match get_str(args, key) {
        Some(s) => Ok(trim_str(s)),
        None => {
            let mut e = owned("missing '");
            push_str(&mut e, key);
            push_str(&mut e, "' argument");
            Err(e)
        },
    }
}

/// The mandate checks and the invalidation conditions.
fn check_mandate(args: &Json) -> (r: Result<(bool, String), String>)
    ensures
        match mandate_error(*args) {
            Some(e) => r matches Err(m) && m@ == e,
            None => r matches Ok((fits, cond)) && (args.get_spec("mandate_check"@) matches Some(m)
                && arg_bool(m, "fits_mandate"@) == Some(fits)) && cond@ == trimmed_arg(
                *args,
                "invalidation_conditions"@,
            ),
        },
{
    let m = match args.get("mandate_check") {
        Some(m) => m,
        None => return Err(missing_message("mandate_check")),
    };
    if !m.is_object() {
        return Err(owned("'mandate_check' must be an object"));
    }
    let fits = match get_bool(m, "fits_mandate") {
        Some(b) => b,
        None => return Err(owned("'mandate_check.fits_mandate' must be a boolean")),
    };
    let notes_ok = match get_str(m, "notes") {
        Some(n) => !trim_str(n).as_str().is_empty(),
        None => false,
    };
    if !notes_ok {
        return Err(owned("'mandate_check.notes' must be a non-empty string"));
    }
    let cond = match trimmed_required(args, "invalidation_conditions") {
        Ok(c) => c,
        Err(e) => return Err(e),
    };
    if cond.as_str().is_empty() {
        return Err(owned(INVALIDATION_REQUIRED));
    }
    Ok((fits, cond))
}

/// Checks a decision draft.
pub fn validate_action(args: &Json) -> (r: Result<InvestmentAction, String>)
    ensures
        match action_error(*args) {
            Some(e) => r matches Err(m) && m@ == e,
            None => r matches Ok(a) && action_ok(*args, a),
        },
{
    let ticker = match trimmed_required(args, "ticker") {
        Ok(s) => s,
        Err(e) => return Err(e),
    };
    let direction = match trimmed_required(args, "direction") {
        Ok(s) => s,
        Err(e) => return Err(e),
    };
    let rationale = match trimmed_required(args, "rationale") {
        Ok(s) => s,
        Err(e) => return Err(e),
    };
    let horizon_days = get_i64(args, "horizon_days");
    let risks = match parse_string_array(args, "risks") {
        Ok(v) => v,
        Err(e) => return Err(e),
    };
    if risks.len() == 0 {
        return Err(owned(RISKS_REQUIRED));
    }
    let opposing_case = match trimmed_required(args, "opposing_case") {
        Ok(s) => s,
        Err(e) => return Err(e),
    };
    if opposing_case.as_str().is_empty() {
        return Err(owned(OPPOSING_CASE_REQUIRED));
    }
    let corpus_refs = match parse_string_array(args, "corpus_refs") {
        Ok(v) => v,
        Err(e) => return Err(e),
    };
    let (fits_mandate, invalidation_conditions) = match check_mandate(args) {
        Ok(p) => p,
        Err(e) => return Err(e),
    };
    Ok(
        InvestmentAction {
            ticker,
            direction,
            rationale,
            horizon_days,
            risks,
            opposing_case,
            corpus_refs,
            fits_mandate,
            invalidation_conditions,
        },
    )
}

/// How a direction is shown: `Long`, `Short`, `Close`, or as given.
pub open spec fn direction_display(d: Seq<char>) -> Seq<char> {
    if d == "long"@ {
        "Long"@
    } else if d == "short"@ {
        "Short"@
    } else if d == "close"@ {
        "Close"@
    } else {
        d
    }
}

/// The confirmation summary of a stored draft. `figure_rows` are the
/// already rendered size, stop-loss and target rows, each present only
/// when the draft names that figure.
pub open spec fn summary_text(a: InvestmentAction, deliverable_id: Seq<char>, figure_rows: Seq<char>) -> Seq<char> {
    "**决策草稿已提交，等待确认**\n\n| 字段 | 值 |\n|------|----|\n             | 标的 | "@ + a.ticker@
        + " |\n| 方向 | "@ + direction_display(a.direction@) + " |\n"@ + figure_rows + (match a.horizon_days {
        Some(v) => "| 期限 | "@ + signed_decimal(v as int) + " 天 |\n"@,
        None => Seq::empty(),
    }) + "| 风险 | "@ + decimal(a.risks@.len()) + " 项 |\n"@ + "| Mandate | "@ + (if a.fits_mandate {
        "符合"@
    } else {
        "需用户复核"@
    }) + " |\n"@ + "\n草稿 ID: `"@ + deliverable_id + "`\n\n请在界面中确认或拒绝此决策。"@
}

/// The confirmation summary of a stored draft.
pub fn decision_summary(a: &InvestmentAction, deliverable_id: &str, figure_rows: &str) -> (r: String)
    ensures
        r@ == summary_text(*a, deliverable_id@, figure_rows@),
{
    let direction: &str = if str_eq(a.direction.as_str(), "long") {
        "Long"
    } else if str_eq(a.direction.as_str(), "short") {
        "Short"
    } else if str_eq(a.direction.as_str(), "close") {
        "Close"
    } else {
        a.direction.as_str()
    };
    let mut out = owned("**决策草稿已提交，等待确认**\n\n| 字段 | 值 |\n|------|----|\n             | 标的 | ");
    push_str(&mut out, a.ticker.as_str());
    push_str(&mut out, " |\n| 方向 | ");
    push_str(&mut out, direction);
    push_str(&mut out, " |\n");
    push_str(&mut out, figure_rows);
    match a.horizon_days {
        Some(v) => {
            push_str(&mut out, "| 期限 | ");
            push_str(&mut out, fmt_i64(v).as_str());
            push_str(&mut out, " 天 |\n");
        },
        None => {},
    }
    push_str(&mut out, "| 风险 | ");
    push_str(&mut out, fmt_u64(a.risks.len() as u64).as_str());
    push_str(&mut out, " 项 |\n");
    push_str(&mut out, "| Mandate | ");
    if a.fits_mandate {
        push_str(&mut out, "符合");
    } else {
        push_str(&mut out, "需用户复核");
    }
    push_str(&mut out, " |\n");
    push_str(&mut out, "\n草稿 ID: `");
    push_str(&mut out, deliverable_id);
    push_str(&mut out, "`\n\n请在界面中确认或拒绝此决策。");
    out
}


/// A size, stop or target figure as the draft records it: the argument's
/// number, else null.
pub open spec fn figure_of(args: Json, key: Seq<char>) -> Json {
    match args.get_spec(key) {
        Some(Json::Number(n)) => Json::Number(n),
        _ => Json::Null,
    }
}

/// `figure_of` an argument.
pub fn figure(args: &Json, key: &str) -> (j: Json)
    ensures
        j == figure_of(*args, key@),
{
    match args.get(key) {
        Some(Json::Number(n)) => Json::Number(
            JsonNumber { text: n.text.clone(), as_u64: n.as_u64, as_i64: n.as_i64, truncated: n.truncated },
        ),
        _ => Json::Null,
    }
}

/// The mandate check of the arguments, as given (null when absent).
pub fn mandate_check_of(args: Json) -> (m: Json)
    ensures
        match args.get_spec("mandate_check"@) {
            Some(v) => m == v,
            None => m == Json::Null,
        },
{
    match take_member(args, "mandate_check") {
        Some(v) => v,
        None => Json::Null,
    }
}

/// Member `i` is `key` with the horizon in days, or null.
pub open spec fn horizon_at(m: Seq<(String, Json)>, i: int, h: Option<i64>) -> bool {
    0 <= i < m.len() && m[i].0@ == "horizon_days"@ && match h {
        Some(n) => m[i].1.i64_spec() == Some(n),
        None => m[i].1 == Json::Null,
    }
}

/// The draft's own members, from `at` on: ticker, direction, the three
/// figures, horizon, rationale, risks, opposing case, corpus references,
/// mandate check and invalidation conditions.
pub open spec fn draft_members(
    m: Seq<(String, Json)>,
    at: int,
    a: InvestmentAction,
    size_pct: Json,
    stop_loss: Json,
    target: Json,
    mandate_check: Json,
) -> bool {
    &&& str_at(m, at, "ticker"@, a.ticker@)
    &&& str_at(m, at + 1, "direction"@, a.direction@)
    &&& json_at(m, at + 2, "size_pct"@, size_pct)
    &&& json_at(m, at + 3, "stop_loss"@, stop_loss)
    &&& json_at(m, at + 4, "target"@, target)
    &&& horizon_at(m, at + 5, a.horizon_days)
    &&& str_at(m, at + 6, "rationale"@, a.rationale@)
    &&& array_at(m, at + 7, "risks"@, views(a.risks@))
    &&& str_at(m, at + 8, "opposing_case"@, a.opposing_case@)
    &&& array_at(m, at + 9, "corpus_refs"@, views(a.corpus_refs@))
    &&& json_at(m, at + 10, "mandate_check"@, mandate_check)
    &&& str_at(m, at + 11, "invalidation_conditions"@, a.invalidation_conditions@)
}

/// Appends the draft's own members.
fn push_draft_members(
    m: &mut Vec<(String, Json)>,
    a: &InvestmentAction,
    size_pct: Json,
    stop_loss: Json,
    target: Json,
    mandate_check: Json,
)
    ensures
        final(m)@.len() == old(m)@.len() + 12,
        final(m)@.take(old(m)@.len() as int) == old(m)@,
        draft_members(final(m)@, old(m)@.len() as int, *a, size_pct, stop_loss, target, mandate_check),
{
    let ghost start = m@;
    m.push(text_member("ticker", a.ticker.as_str()));
    m.push(text_member("direction", a.direction.as_str()));
    m.push(member("size_pct", size_pct));
    m.push(member("stop_loss", stop_loss));
    m.push(member("target", target));
    let h = match a.horizon_days {
        Some(n) => json_i64(n),
        None => Json::Null,
    };
    m.push(member("horizon_days", h));
    m.push(text_member("rationale", a.rationale.as_str()));
    m.push(array_member("risks", &a.risks));
    m.push(text_member("opposing_case", a.opposing_case.as_str()));
    m.push(array_member("corpus_refs", &a.corpus_refs));
    m.push(member("mandate_check", mandate_check));
    m.push(text_member("invalidation_conditions", a.invalidation_conditions.as_str()));
    assert(m@.take(start.len() as int) =~= start);
}

/// The stored payload of a draft: its own members, then the session.
pub fn action_payload(
    a: &InvestmentAction,
    size_pct: Json,
    stop_loss: Json,
    target: Json,
    mandate_check: Json,
    session_id: &str,
) -> (j: Json)
    ensures
        j matches Json::Object(m) && m@.len() == 13 && draft_members(m@, 0, *a, size_pct, stop_loss, target, mandate_check)
            && str_at(m@, 12, "session_id"@, session_id@),
{
    let mut m: Vec<(String, Json)> = Vec::new();
    push_draft_members(&mut m, a, size_pct, stop_loss, target, mandate_check);
    m.push(text_member("session_id", session_id));
    Json::Object(m)
}

/// The event payload of a draft that is ready: the task (null when
/// none), the deliverable, then the draft's own members.
pub fn action_event_payload(
    a: &InvestmentAction,
    task_id: Option<&str>,
    deliverable_id: &str,
    size_pct: Json,
    stop_loss: Json,
    target: Json,
    mandate_check: Json,
) -> (j: Json)
    ensures
        j matches Json::Object(m) && m@.len() == 14 && m@[0].0@ == "task_id"@ && match task_id {
            Some(t) => m@[0].1.str_spec() == Some(t@),
            None => m@[0].1 == Json::Null,
        } && str_at(m@, 1, "deliverable_id"@, deliverable_id@) && draft_members(
            m@,
            2,
            *a,
            size_pct,
            stop_loss,
            target,
            mandate_check,
        ),
{
    let mut m: Vec<(String, Json)> = Vec::new();
    match task_id {
        Some(t) => m.push(text_member("task_id", t)),
        None => m.push(member("task_id", Json::Null)),
    }
    m.push(text_member("deliverable_id", deliverable_id));
    let ghost head = m@;
    push_draft_members(&mut m, a, size_pct, stop_loss, target, mandate_check);
    proof {
        assert(m@[0] == m@.take(2)[0]);
        assert(m@[1] == m@.take(2)[1]);
    }
    Json::Object(m)
}


/// What the tool tells the model it is for.
pub const DESCRIPTION: &'static str = "Record a trade decision draft (long / short / close a position) for the user to confirm or reject in the UI. The semantic contract: the user is committing capital, not sharing an observation. Three signals must all be present — (1) a named ticker, (2) a clear direction, (3) language of commitment ('buy', 'build a position', 'close', 'enter', 'exit') rather than language of reflection ('interesting', 'note', 'agree', 'remember this', 'principle'). When the intent is to preserve an insight or guideline rather than execute a trade, use record_research_note instead.\n\nThe structural fields (`risks`, `opposing_case`, `corpus_refs`, `mandate_check`, `invalidation_conditions`) are mandatory: a decision without a steelmanned bear case, named risks, an explicit invalidation, mandate alignment, and corpus grounding is by definition under-researched. If you cannot provide all of them honestly, do not record the action — go gather more facts first.";

impl RecordInvestmentActionTool {
    /// The function the tool is offered as: its name, its description
    /// and the schema of its parameters.
    pub fn spec(&self) -> (s: ToolSpec)
        ensures
            s matches ToolSpec::Function { name, description, parameters } && name@ == TOOL_NAME@ && description@
                == DESCRIPTION@ && schema_shape(
                parameters,
                seq!["ticker"@, "direction"@, "size_pct"@, "stop_loss"@, "target"@, "horizon_days"@, "rationale"@, "risks"@, "opposing_case"@, "corpus_refs"@, "mandate_check"@, "invalidation_conditions"@],
                seq!["ticker"@, "direction"@, "rationale"@, "risks"@, "opposing_case"@, "corpus_refs"@, "mandate_check"@, "invalidation_conditions"@],
            ),
    {
        let mut props: Vec<(String, Json)> = Vec::new();
        props.push((owned("ticker"), Json::Object(vec![
            (owned("type"), json_str("string")),
            (owned("description"), json_str("Ticker symbol, e.g. AAPL, 600519.SH, BTC")),
        ])));
        props.push((owned("direction"), Json::Object(vec![
            (owned("type"), json_str("string")),
            (owned("enum"), text_array(vec!["long", "short", "close"])),
            (owned("description"), json_str("Trade direction")),
        ])));
        props.push((owned("size_pct"), Json::Object(vec![
            (owned("type"), json_str("number")),
            (owned("description"), json_str("Position size as % of portfolio (e.g. 3.5 for 3.5%)")),
        ])));
        props.push((owned("stop_loss"), Json::Object(vec![
            (owned("type"), json_str("number")),
            (owned("description"), json_str("Stop-loss price (absolute)")),
        ])));
        props.push((owned("target"), Json::Object(vec![
            (owned("type"), json_str("number")),
            (owned("description"), json_str("Price target (absolute)")),
        ])));
        props.push((owned("horizon_days"), Json::Object(vec![
            (owned("type"), json_str("integer")),
            (owned("description"), json_str("Expected holding period in days")),
        ])));
        props.push((owned("rationale"), Json::Object(vec![
            (owned("type"), json_str("string")),
            (owned("description"), json_str("Research rationale in markdown (the bull case / why this trade)")),
        ])));
        props.push((owned("risks"), Json::Object(vec![
            (owned("type"), json_str("array")),
            (owned("items"), Json::Object(vec![
                (owned("type"), json_str("string")),
            ])),
            (owned("minItems"), json_u64(1)),
            (owned("description"), json_str("Named, concrete risks. Must include at least one. Format each as 'risk: <one-line description>' — no platitudes like 'market conditions might change'.")),
        ])));
        props.push((owned("opposing_case"), Json::Object(vec![
            (owned("type"), json_str("string")),
            (owned("description"), json_str("The strongest steelmanned bear case (or bull case for shorts). Must engage with the *reasons* a smart investor would take the opposite side, not a strawman.")),
        ])));
        props.push((owned("corpus_refs"), Json::Object(vec![
            (owned("type"), json_str("array")),
            (owned("items"), Json::Object(vec![
                (owned("type"), json_str("string")),
            ])),
            (owned("description"), json_str("Corpus document titles cited in the rationale (e.g. 'Margin of Safety', 'Long-term debt cycle'). Empty array allowed only if the corpus has no relevant page; explicitly state that condition in the rationale.")),
        ])));
        props.push((owned("mandate_check"), Json::Object(vec![
            (owned("type"), json_str("object")),
            (owned("properties"), Json::Object(vec![
                (owned("fits_mandate"), Json::Object(vec![
                    (owned("type"), json_str("boolean")),
                    (owned("description"), json_str("Does this trade respect the user's mandate (risk tolerance, position caps, instrument limits)?")),
                ])),
                (owned("notes"), Json::Object(vec![
                    (owned("type"), json_str("string")),
                    (owned("description"), json_str("Specific mandate clauses that gate this trade. State them, don't summarize.")),
                ])),
            ])),
            (owned("required"), text_array(vec!["fits_mandate", "notes"])),
        ])));
        props.push((owned("invalidation_conditions"), Json::Object(vec![
            (owned("type"), json_str("string")),
            (owned("description"), json_str("What observation would falsify the thesis and force exit? E.g. 'EPS revisions turn negative for two consecutive quarters' or 'price closes below 50-week MA'. Must be observable and specific.")),
        ])));
        let ghost keys = member_keys(props@);
        let required = strings(vec!["ticker", "direction", "rationale", "risks", "opposing_case", "corpus_refs", "mandate_check", "invalidation_conditions"]);
        proof {
            assert(keys =~= seq!["ticker"@, "direction"@, "size_pct"@, "stop_loss"@, "target"@, "horizon_days"@, "rationale"@, "risks"@, "opposing_case"@, "corpus_refs"@, "mandate_check"@, "invalidation_conditions"@]);
            assert(views(required@) =~= seq!["ticker"@, "direction"@, "rationale"@, "risks"@, "opposing_case"@, "corpus_refs"@, "mandate_check"@, "invalidation_conditions"@]);
        }
        let parameters = object_schema(props, required);
        ToolSpec::Function { name: owned(TOOL_NAME), description: owned(DESCRIPTION), parameters }
    }
}

} // verus!
