//! `ask_user_question`: pause the task with one to three clarifying
//! questions, each offering two or three options.
use vstd::prelude::*;

use crate::tools::{member_keys, object_schema, schema_shape, strings, text_array, ToolSpec};

use crate::json::{arg_array, arg_str, get_array, get_str, json_text, quoted, write_json, write_quoted, Json, json_str, json_u64};
use crate::text::{chars_of, extend_chars, join, join_strings, owned, push_str, string_of, trim, trim_str, views};

verus! {

/// The name the tool is offered under.
pub const TOOL_NAME: &'static str = "ask_user_question";

/// The clarifying-question tool.
pub struct AskUserQuestionTool;

/// Whether `key` of `v` is a string that is not blank.
pub open spec fn has_text(v: Json, key: Seq<char>) -> bool {
    match arg_str(v, key) {
        Some(s) => trim(s).len() > 0,
        None => false,
    }
}

/// The error of a blank or missing string argument.
pub open spec fn missing(key: Seq<char>) -> Seq<char> {
    "missing '"@ + key + "' argument"@
}

/// The error of a blank or missing string argument.
pub fn missing_message(key: &str) -> (r: String)
    ensures
        r@ == missing(key@),
{
    let mut e = owned("missing '");
    push_str(&mut e, key);
    push_str(&mut e, "' argument");
    e
}

/// `key` of `v`, trimmed, when it is a non-blank string; else the error
/// naming it.
pub fn required_str(v: &Json, key: &str) -> (r: Result<String, String>)
    ensures
        match r {
            Ok(s) => has_text(*v, key@) && (arg_str(*v, key@) matches Some(raw) && s@ == trim(raw)),
            Err(e) => !has_text(*v, key@) && e@ == missing(key@),
        },
{
    match get_str(v, key) {
        Some(s) => {
            let t = trim_str(s);
            if !t.as_str().is_empty() {
                return Ok(t);
            }
        },
        None => {},
    }
    let mut e = owned("missing '");
    push_str(&mut e, key);
    push_str(&mut e, "' argument");
    Err(e)
}

/// The first problem of an option: a missing label, then a missing
/// description.
pub open spec fn option_error(o: Json) -> Option<Seq<char>> {
    if !has_text(o, "label"@) {
        Some(missing("label"@))
    } else if !has_text(o, "description"@) {
        Some(missing("description"@))
    } else {
        None
    }
}

/// The first problem among options, in order.
pub open spec fn options_error(os: Seq<Json>) -> Option<Seq<char>>
    decreases os.len(),
{
    if os.len() == 0 {
        None
    } else {
        match option_error(os[0]) {
            Some(e) => Some(e),
            None => options_error(os.drop_first()),
        }
    }
}

/// The first problem of a question: a missing id, header or question,
/// options that are not a list of two or three, or a bad option.
pub open spec fn question_error(q: Json) -> Option<Seq<char>> {
    if !has_text(q, "id"@) {
        Some(missing("id"@))
    } else if !has_text(q, "header"@) {
        Some(missing("header"@))
    } else if !has_text(q, "question"@) {
        Some(missing("question"@))
    } else {
        match arg_array(q, "options"@) {
            None => Some("each question requires options"@),
            Some(os) => if os.len() < 2 || os.len() > 3 {
                Some("each question requires two or three options"@)
            } else {
                options_error(os)
            },
        }
    }
}

/// The first problem among questions, in order.
pub open spec fn questions_error(qs: Seq<Json>) -> Option<Seq<char>>
    decreases qs.len(),
{
    if qs.len() == 0 {
        None
    } else {
        match question_error(qs[0]) {
            Some(e) => Some(e),
            None => questions_error(qs.drop_first()),
        }
    }
}

/// Why a call is refused, if it is: no `questions` list, a list of other
/// than one to three questions, or the first problem of a question.
pub open spec fn ask_error(args: Json) -> Option<Seq<char>> {
    match arg_array(args, "questions"@) {
        None => Some("missing 'questions' array"@),
        Some(qs) => if qs.len() == 0 || qs.len() > 3 {
            Some("ask_user_question requires one to three questions"@)
        } else {
            questions_error(qs)
        },
    }
}

/// The question texts of the questions that carry one, in order.
pub open spec fn question_texts(qs: Seq<Json>) -> Seq<Seq<char>>
    decreases qs.len(),
{
    if qs.len() == 0 {
        Seq::empty()
    } else {
        question_texts(qs.drop_last()) + match arg_str(qs.last(), "question"@) {
            Some(s) => seq![s],
            None => Seq::empty(),
        }
    }
}

/// The reply: `{"question_text": …, "questions": …, "status":
/// "awaiting_user"}` as compact JSON, the question texts joined by
/// newlines and the questions as given.
pub open spec fn awaiting_reply(questions: Json, qs: Seq<Json>) -> Seq<char> {
    "{"@ + quoted("question_text"@) + ":"@ + quoted(join(question_texts(qs), "\n"@)) + ","@
        + quoted("questions"@) + ":"@ + json_text(questions) + ","@ + quoted("status"@) + ":"@
        + quoted("awaiting_user"@) + "}"@
}

/// The first problem among options, checked in order.
fn check_options(os: &Vec<Json>) -> (r: Result<(), String>)
    ensures
        match r {
            Ok(_) => options_error(os@) is None,
            Err(e) => options_error(os@) == Some(e@),
        },
{
    let mut i: usize = 0;
    assert(os@.skip(0) =~= os@);
    while i < os.len()
        invariant
            i <= os.len(),
            options_error(os@) == options_error(os@.skip(i as int)),
        decreases os.len() - i,
    {
        assert(os@.skip(i as int).drop_first() =~= os@.skip(i + 1));
        assert(os@.skip(i as int)[0] == os@[i as int]);
        match required_str(&os[i], "label") {
            Err(e) => return Err(e),
            Ok(_) => {},
        }
        match required_str(&os[i], "description") {
            Err(e) => return Err(e),
            Ok(_) => {},
        }
        i = i + 1;
    }
    assert(os@.skip(os.len() as int) =~= Seq::<Json>::empty());
    Ok(())
}

/// The first problem of a question.
fn check_question(q: &Json) -> (r: Result<(), String>)
    ensures
        match r {
            Ok(_) => question_error(*q) is None,
            Err(e) => question_error(*q) == Some(e@),
        },
{
    match required_str(q, "id") {
        Err(e) => return Err(e),
        Ok(_) => {},
    }
    match required_str(q, "header") {
        Err(e) => return Err(e),
        Ok(_) => {},
    }
    match required_str(q, "question") {
        Err(e) => return Err(e),
        Ok(_) => {},
    }
    let options = match get_array(q, "options") {
        Some(o) => o,
        None => return Err(owned("each question requires options")),
    };
    if options.len() < 2 || options.len() > 3 {
        return Err(owned("each question requires two or three options"));
    }
    check_options(options)
}

/// The question texts joined by newlines.
fn join_question_texts(qs: &Vec<Json>) -> (r: String)
    ensures
        r@ == join(question_texts(qs@), "\n"@),
{
    let mut texts: Vec<String> = Vec::new();
    let mut i: usize = 0;
    while i < qs.len()
        invariant
            i <= qs.len(),
            views(texts@) == question_texts(qs@.take(i as int)),
        decreases qs.len() - i,
    {
        assert(qs@.take(i + 1).drop_last() =~= qs@.take(i as int));
        let ghost before = views(texts@);
        match get_str(&qs[i], "question") {
            Some(s) => {
                texts.push(owned(s));
                assert(views(texts@) =~= before.push(s@));
            },
            None => {
                assert(views(texts@) =~= before);
            },
        }
        i = i + 1;
    }
    assert(qs@.take(qs.len() as int) =~= qs@);
    join_strings(&texts, "\n")
}

impl AskUserQuestionTool {
    /// The tool.
    pub fn new() -> (r: Self) {
        AskUserQuestionTool
    }

    /// The name the tool is offered under.
    pub fn name(&self) -> (r: &'static str)
        ensures
            r@ == TOOL_NAME@,
    {
        TOOL_NAME
    }

    /// Checks the questions and returns the awaiting-user reply, or the
    /// first problem found.
    pub fn call(&self, args: &Json) -> (r: Result<String, String>)
        ensures
            match ask_error(*args) {
                Some(e) => r matches Err(m) && m@ == e,
                None => r matches Ok(s) && (args.get_spec("questions"@) matches Some(q) && (q matches Json::Array(
                    qs,
                ) && s@ == awaiting_reply(q, qs@))),
            },
    {
        let questions_value = match args.get("questions") {
            Some(v) => v,
            None => return Err(owned("missing 'questions' array")),
        };
        let questions = match questions_value.as_array() {
            Some(q) => q,
            None => return Err(owned("missing 'questions' array")),
        };
        if questions.len() == 0 || questions.len() > 3 {
            return Err(owned("ask_user_question requires one to three questions"));
        }
        let mut i: usize = 0;
        assert(questions@.skip(0) =~= questions@);
        while i < questions.len()
            invariant
                i <= questions.len(),
                arg_array(*args, "questions"@) == Some(questions@),
                1 <= questions@.len() <= 3,
                questions_error(questions@) == questions_error(questions@.skip(i as int)),
            decreases questions.len() - i,
        {
            assert(questions@.skip(i as int).drop_first() =~= questions@.skip(i + 1));
            assert(questions@.skip(i as int)[0] == questions@[i as int]);
            match check_question(&questions[i]) {
                Err(e) => return Err(e),
                Ok(_) => {},
            }
            i = i + 1;
        }
        assert(questions@.skip(questions.len() as int) =~= Seq::<Json>::empty());
        let question_text = join_question_texts(questions);
        let mut out: Vec<char> = Vec::new();
        out.push('{');
        write_quoted(&mut out, "question_text");
        out.push(':');
        write_quoted(&mut out, question_text.as_str());
        out.push(',');
        write_quoted(&mut out, "questions");
        out.push(':');
        write_json(&mut out, questions_value);
        out.push(',');
        write_quoted(&mut out, "status");
        out.push(':');
        write_quoted(&mut out, "awaiting_user");
        out.push('}');
        proof {
            reveal_strlit("{");
            reveal_strlit(":");
            reveal_strlit(",");
            reveal_strlit("}");
        }
        assert(out@ =~= awaiting_reply(*questions_value, questions@));
        Ok(string_of(out.as_slice()))
    }
}


/// What the tool tells the model it is for.
pub const DESCRIPTION: &'static str = "Ask the user one to three short clarifying questions and pause the current task. Use this only when the answer materially changes the scope, risk tolerance, time horizon, or expected depth, and the information cannot be safely inferred or discovered with read-only tools.";

impl AskUserQuestionTool {
    /// The function the tool is offered as: its name, its description
    /// and the schema of its parameters.
    pub fn spec(&self) -> (s: ToolSpec)
        ensures
            s matches ToolSpec::Function { name, description, parameters } && name@ == TOOL_NAME@ && description@
                == DESCRIPTION@ && schema_shape(
                parameters,
                seq!["questions"@],
                seq!["questions"@],
            ),
    {
        let mut props: Vec<(String, Json)> = Vec::new();
        props.push((owned("questions"), Json::Object(vec![
            (owned("type"), json_str("array")),
            (owned("minItems"), json_u64(1)),
            (owned("maxItems"), json_u64(3)),
            (owned("description"), json_str("Questions to show the user. Prefer one question.")),
            (owned("items"), Json::Object(vec![
                (owned("type"), json_str("object")),
                (owned("properties"), Json::Object(vec![
                    (owned("id"), Json::Object(vec![
                        (owned("type"), json_str("string")),
                        (owned("description"), json_str("Stable snake_case identifier for mapping the answer")),
                    ])),
                    (owned("header"), Json::Object(vec![
                        (owned("type"), json_str("string")),
                        (owned("description"), json_str("Short UI label, 12 characters or fewer")),
                    ])),
                    (owned("question"), Json::Object(vec![
                        (owned("type"), json_str("string")),
                        (owned("description"), json_str("Single-sentence prompt shown to the user")),
                    ])),
                    (owned("options"), Json::Object(vec![
                        (owned("type"), json_str("array")),
                        (owned("minItems"), json_u64(2)),
                        (owned("maxItems"), json_u64(3)),
                        (owned("description"), json_str("Mutually exclusive choices. Put the recommended option first and suffix its label with (Recommended).")),
                        (owned("items"), Json::Object(vec![
                            (owned("type"), json_str("object")),
                            (owned("properties"), Json::Object(vec![
                                (owned("label"), Json::Object(vec![
                                    (owned("type"), json_str("string")),
                                    (owned("description"), json_str("User-facing label")),
                                ])),
                                (owned("description"), Json::Object(vec![
                                    (owned("type"), json_str("string")),
                                    (owned("description"), json_str("One short sentence explaining impact or tradeoff")),
                                ])),
                            ])),
                            (owned("required"), text_array(vec!["label", "description"])),
                        ])),
                    ])),
                ])),
                (owned("required"), text_array(vec!["id", "header", "question", "options"])),
            ])),
        ])));
        let ghost keys = member_keys(props@);
        let required = strings(vec!["questions"]);
        proof {
            assert(keys =~= seq!["questions"@]);
            assert(views(required@) =~= seq!["questions"@]);
        }
        let parameters = object_schema(props, required);
        ToolSpec::Function { name: owned(TOOL_NAME), description: owned(DESCRIPTION), parameters }
    }
}

} // verus!
