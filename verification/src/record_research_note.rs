//! `record_research_note`: keep a reversible research note, mandate
//! candidate, preference or lesson in the vault.
use vstd::prelude::*;

use crate::tools::{member_keys, object_schema, schema_shape, strings, text_array, ToolSpec};

use crate::ask_user_question::{has_text, missing, required_str};
use crate::delegate_research::{required_text, string_members_are, string_object};
use crate::json::{arg_array, get_array, json_str, str_items, str_items_exec, Json};
use crate::text::{owned, push_str, views};

verus! {

/// The name the tool is offered under.
pub const TOOL_NAME: &'static str = "record_research_note";

/// The research-note tool.
pub struct RecordResearchNoteTool;

impl RecordResearchNoteTool {
    /// The tool.
    pub fn new() -> (r: Self) {
        RecordResearchNoteTool
    }

    /// The name the tool is offered under.
    pub fn name(&self) -> (r: &'static str)
        ensures
            r@ == TOOL_NAME@,
    {
        TOOL_NAME
    }
}

/// The arguments of a note.
pub struct NoteArgs {
    pub note_type: String,
    pub title: String,
    pub body: String,
    pub corpus_refs: Vec<String>,
}

/// The corpus references of a call: the strings of its `corpus_refs`
/// list, or none.
pub open spec fn corpus_refs_spec(args: Json) -> Seq<Seq<char>> {
    match arg_array(args, "corpus_refs"@) {
        Some(items) => str_items(items),
        None => Seq::empty(),
    }
}

/// Reads a note: note type, title and body are required and must not be
/// blank, checked in that order.
pub fn parse_note_args(args: &Json) -> (r: Result<NoteArgs, String>)
    ensures
        if !has_text(*args, "note_type"@) {
            r matches Err(e) && e@ == missing("note_type"@)
        } else if !has_text(*args, "title"@) {
            r matches Err(e) && e@ == missing("title"@)
        } else if !has_text(*args, "body"@) {
            r matches Err(e) && e@ == missing("body"@)
        } else {
            r matches Ok(a) && a.note_type@ == required_text(*args, "note_type"@) && a.title@
                == required_text(*args, "title"@) && a.body@ == required_text(*args, "body"@)
                && views(a.corpus_refs@) == corpus_refs_spec(*args)
        },
{
    let note_type = match required_str(args, "note_type") {
        Ok(s) => s,
        Err(e) => return Err(e),
    };
    let title = match required_str(args, "title") {
        Ok(s) => s,
        Err(e) => return Err(e),
    };
    let body = match required_str(args, "body") {
        Ok(s) => s,
        Err(e) => return Err(e),
    };
    let corpus_refs = match get_array(args, "corpus_refs") {
        Some(items) => str_items_exec(items),
        None => {
            let v: Vec<String> = Vec::new();
            assert(views(v@) =~= Seq::<Seq<char>>::empty());
            v
        },
    };
    Ok(NoteArgs { note_type, title, body, corpus_refs })
}

/// A list of strings.
pub open spec fn string_list(j: Json, items: Seq<Seq<char>>) -> bool {
    match j {
        Json::Array(vs) => {
            &&& vs@.len() == items.len()
            &&& forall|i: int| 0 <= i < items.len() ==> (vs@[i] matches Json::String(v) && v@
                == #[trigger] items[i])
        },
        _ => false,
    }
}

/// A list of strings.
pub fn json_string_list(items: &Vec<String>) -> (j: Json)
    ensures
        string_list(j, views(items@)),
{
    let mut vs: Vec<Json> = Vec::new();
    let mut i: usize = 0;
    while i < items.len()
        invariant
            i <= items.len(),
            vs@.len() == i,
            forall|k: int| 0 <= k < i ==> (#[trigger] vs@[k] matches Json::String(v) && v@ == items@[k]@),
        decreases items.len() - i,
    {
        vs.push(json_str(items[i].as_str()));
        i = i + 1;
    }
    assert forall|k: int| 0 <= k < views(items@).len() implies (vs@[k] matches Json::String(v) && v@
        == #[trigger] views(items@)[k]) by {
        assert(views(items@)[k] == items@[k]@);
    }
    Json::Array(vs)
}

/// The stored record of a note: `{"body", "corpus_refs", "note_type",
/// "session_id", "task_id", "title"}`, the task id `null` when absent.
pub open spec fn note_payload_ok(j: Json, a: NoteArgs, session_id: Seq<char>, task_id: Option<Seq<char>>) -> bool {
    match j {
        Json::Object(ms) => {
            &&& ms@.len() == 6
            &&& ms@[0].0@ == "body"@ && (ms@[0].1 matches Json::String(v) && v@ == a.body@)
            &&& ms@[1].0@ == "corpus_refs"@ && string_list(ms@[1].1, views(a.corpus_refs@))
            &&& ms@[2].0@ == "note_type"@ && (ms@[2].1 matches Json::String(v) && v@ == a.note_type@)
            &&& ms@[3].0@ == "session_id"@ && (ms@[3].1 matches Json::String(v) && v@ == session_id)
            &&& ms@[4].0@ == "task_id"@ && match task_id {
                Some(t) => ms@[4].1 matches Json::String(v) && v@ == t,
                None => ms@[4].1 is Null,
            }
            &&& ms@[5].0@ == "title"@ && (ms@[5].1 matches Json::String(v) && v@ == a.title@)
        },
        _ => false,
    }
}

/// The stored record of a note.
pub fn note_payload(a: &NoteArgs, session_id: &str, task_id: Option<&str>) -> (j: Json)
    ensures
        note_payload_ok(
            j,
            *a,
            session_id@,
            match task_id {
                Some(t) => Some(t@),
                None => None,
            },
        ),
{
    let mut ms: Vec<(String, Json)> = Vec::new();
    ms.push((owned("body"), json_str(a.body.as_str())));
    ms.push((owned("corpus_refs"), json_string_list(&a.corpus_refs)));
    ms.push((owned("note_type"), json_str(a.note_type.as_str())));
    ms.push((owned("session_id"), json_str(session_id)));
    let task = match task_id {
        Some(t) => json_str(t),
        None => Json::Null,
    };
    ms.push((owned("task_id"), task));
    ms.push((owned("title"), json_str(a.title.as_str())));
    Json::Object(ms)
}

/// The event of a recorded note: `{"artifact_id", "note_type", "title"}`.
pub fn note_event_payload(a: &NoteArgs, artifact_id: &str) -> (j: Json)
    ensures
        string_object(
            j,
            seq![("artifact_id"@, artifact_id@), ("note_type"@, a.note_type@), ("title"@, a.title@)],
        ),
{
    let mut ms: Vec<(String, Json)> = Vec::new();
    ms.push((owned("artifact_id"), json_str(artifact_id)));
    ms.push((owned("note_type"), json_str(a.note_type.as_str())));
    ms.push((owned("title"), json_str(a.title.as_str())));
    let j = Json::Object(ms);
    assert(string_members_are(
        ms@,
        seq![("artifact_id"@, artifact_id@), ("note_type"@, a.note_type@), ("title"@, a.title@)],
    ));
    j
}

/// The reply once a note is stored.
pub fn note_recorded_reply(a: &NoteArgs, artifact_id: &str) -> (r: String)
    ensures
        r@ == "已记录为 `"@ + a.note_type@ + "`："@ + a.title@ + "\n\nartifact_id: `"@ + artifact_id@ + "`"@,
{
    let mut out = owned("已记录为 `");
    push_str(&mut out, a.note_type.as_str());
    push_str(&mut out, "`：");
    push_str(&mut out, a.title.as_str());
    push_str(&mut out, "\n\nartifact_id: `");
    push_str(&mut out, artifact_id);
    push_str(&mut out, "`");
    out
}


/// What the tool tells the model it is for.
pub const DESCRIPTION: &'static str = "Record a reversible research note, mandate candidate, user preference, or reusable lesson in the vault artifacts table. Use this when the user says 'remember', 'note this', 'this fits my taste', or asks to preserve an insight. Do NOT use record_investment_action unless the user clearly commits capital to a specific ticker and direction.";

impl RecordResearchNoteTool {
    /// The function the tool is offered as: its name, its description
    /// and the schema of its parameters.
    pub fn spec(&self) -> (s: ToolSpec)
        ensures
            s matches ToolSpec::Function { name, description, parameters } && name@ == TOOL_NAME@ && description@
                == DESCRIPTION@ && schema_shape(
                parameters,
                seq!["note_type"@, "title"@, "body"@, "corpus_refs"@],
                seq!["note_type"@, "title"@, "body"@],
            ),
    {
        let mut props: Vec<(String, Json)> = Vec::new();
        props.push((owned("note_type"), Json::Object(vec![
            (owned("type"), json_str("string")),
            (owned("enum"), text_array(vec!["research_note", "mandate_candidate", "preference", "lesson"])),
            (owned("description"), json_str("The kind of note to save")),
        ])));
        props.push((owned("title"), Json::Object(vec![
            (owned("type"), json_str("string")),
            (owned("description"), json_str("Short human-readable title")),
        ])));
        props.push((owned("body"), Json::Object(vec![
            (owned("type"), json_str("string")),
            (owned("description"), json_str("Markdown body. Preserve the user's meaning; separate facts from judgment when relevant.")),
        ])));
        props.push((owned("corpus_refs"), Json::Object(vec![
            (owned("type"), json_str("array")),
            (owned("items"), Json::Object(vec![
                (owned("type"), json_str("string")),
            ])),
            (owned("description"), json_str("Optional corpus wiki/source ids that support this note")),
        ])));
        let ghost keys = member_keys(props@);
        let required = strings(vec!["note_type", "title", "body"]);
        proof {
            assert(keys =~= seq!["note_type"@, "title"@, "body"@, "corpus_refs"@]);
            assert(views(required@) =~= seq!["note_type"@, "title"@, "body"@]);
        }
        let parameters = object_schema(props, required);
        ToolSpec::Function { name: owned(TOOL_NAME), description: owned(DESCRIPTION), parameters }
    }
}

} // verus!
