//! `corpus_read`: the full body of a local corpus document, by id, cut
//! to a character budget.
use vstd::prelude::*;

use crate::tools::{member_keys, object_schema, schema_shape, strings, text_array, ToolSpec};

use crate::get_a_share_research_sources::opt_view;
use crate::json::{arg_str, arg_u64, get_str, get_u64, Json, json_str};
use crate::text::{
    chars_of, ends_with, ends_with_chars, join, join_strings, owned, prefix, prefix_chars,
    push_str, string_of, trim, trim_chars, views,
};

verus! {

/// The name the tool is offered under.
pub const TOOL_NAME: &'static str = "corpus_read";

/// Body characters returned when the call names no budget.
pub const DEFAULT_MAX_CHARS: usize = 20_000;

/// Most body characters a call can ask for.
pub const HARD_MAX_CHARS: usize = 60_000;

/// The corpus-reading tool.
pub struct CorpusReadTool;

/// A document of the local corpus.
pub struct CorpusDoc {
    pub id: String,
    pub title: String,
    pub tier: String,
    pub layer: String,
    pub tags: Vec<String>,
    pub body: String,
}

/// `s` with every trailing `.md` removed (`trim_end_matches(".md")`).
pub open spec fn strip_md(s: Seq<char>) -> Seq<char>
    decreases s.len(),
{
    if s.len() >= 3 && ends_with(s, ".md"@) {
        strip_md(s.take(s.len() - 3))
    } else {
        s
    }
}

/// A read request: the document id and the body budget.
pub struct CorpusReadRequest {
    pub id: String,
    pub max_chars: usize,
}

/// The id a call names: trimmed, without trailing `.md`.
pub open spec fn requested_id(args: Json) -> Option<Seq<char>> {
    match arg_str(args, "id"@) {
        Some(s) => Some(strip_md(trim(s))),
        None => None,
    }
}

/// The body budget a call names: its `max_chars` capped at 60000, else
/// 20000.
pub open spec fn budget(args: Json) -> usize {
    match arg_u64(args, "max_chars"@) {
        Some(n) => if n > HARD_MAX_CHARS {
            HARD_MAX_CHARS
        } else {
            n as usize
        },
        None => DEFAULT_MAX_CHARS,
    }
}

/// Reads a call: a missing id and a blank one are refused.
pub fn parse_request(args: &Json) -> (r: Result<CorpusReadRequest, String>)
    ensures
        match requested_id(*args) {
            None => r matches Err(e) && e@ == "missing 'id' argument"@,
            Some(id) => if id.len() == 0 {
                r matches Err(e) && e@ == "empty corpus document id"@
            } else {
                r matches Ok(req) && req.id@ == id && req.max_chars == budget(*args)
            },
        },
{
    let raw = match get_str(args, "id") {
        Some(s) => s,
        None => return Err(owned("missing 'id' argument")),
    };
    let v = chars_of(raw);
    let t = trim_chars(v.as_slice());
    let md = chars_of(".md");
    proof {
        reveal_strlit(".md");
    }
    let mut end: usize = t.len();
    assert(t@.take(end as int) =~= t@);
    while end >= 3 && ends_with_chars(&t.as_slice()[0..end], md.as_slice())
        invariant
            end <= t@.len(),
            md@ == ".md"@,
            strip_md(t@) == strip_md(t@.take(end as int)),
        decreases end,
    {
        assert(t@.take(end as int).take(end - 3) =~= t@.take(end - 3));
        end = end - 3;
    }
    let ghost cut = t@.take(end as int);
    proof {
        if end >= 3 {
            assert(!ends_with(cut, ".md"@));
        }
    }
    if end == 0 {
        return Err(owned("empty corpus document id"));
    }
    let id = string_of(&t.as_slice()[0..end]);
    assert(id@ =~= cut);
    let max_chars: usize = match get_u64(args, "max_chars") {
        Some(n) => if n > 60_000 {
            HARD_MAX_CHARS
        } else {
            n as usize
        },
        None => DEFAULT_MAX_CHARS,
    };
    Ok(CorpusReadRequest { id, max_chars })
}

/// The first `max_chars` characters of `text`, and whether anything was
/// cut.
pub fn truncate_chars(text: &str, max_chars: usize) -> (r: (String, bool))
    ensures
        r.0@ == prefix(text@, max_chars as int),
        r.1 == (text@.len() > max_chars),
{
    let v = chars_of(text);
    let p = prefix_chars(v.as_slice(), max_chars);
    (string_of(p.as_slice()), v.len() > max_chars)
}

/// The tags line of a document: its tags joined by commas, or `(none)`.
pub open spec fn tags_text(tags: Seq<Seq<char>>) -> Seq<char> {
    if tags.len() == 0 {
        "(none)"@
    } else {
        join(tags, ", "@)
    }
}

/// The reply for a document read with a body budget.
pub open spec fn doc_text(doc: CorpusDoc, max_chars: usize) -> Seq<char> {
    "# "@ + doc.title@ + "\n\n- id: `"@ + doc.id@ + "`\n- tier: `"@ + doc.tier@ + "`\n- layer: `"@
        + doc.layer@ + "`\n- tags: "@ + tags_text(views(doc.tags@)) + "\n\n"@ + prefix(
        doc.body@,
        max_chars as int,
    ) + if doc.body@.len() > max_chars {
        "\n\n[corpus_read: content truncated; call again with a narrower page or higher max_chars if the missing section is required.]"@
    } else {
        Seq::empty()
    }
}

/// The reply for a document read with a body budget.
pub fn render_doc(doc: &CorpusDoc, max_chars: usize) -> (r: String)
    ensures
        r@ == doc_text(*doc, max_chars),
{
    let (body, truncated) = truncate_chars(doc.body.as_str(), max_chars);
    let tags = if doc.tags.len() == 0 {
        owned("(none)")
    } else {
        join_strings(&doc.tags, ", ")
    };
    let mut out = owned("# ");
    push_str(&mut out, doc.title.as_str());
    push_str(&mut out, "\n\n- id: `");
    push_str(&mut out, doc.id.as_str());
    push_str(&mut out, "`\n- tier: `");
    push_str(&mut out, doc.tier.as_str());
    push_str(&mut out, "`\n- layer: `");
    push_str(&mut out, doc.layer.as_str());
    push_str(&mut out, "`\n- tags: ");
    push_str(&mut out, tags.as_str());
    push_str(&mut out, "\n\n");
    push_str(&mut out, body.as_str());
    if truncated {
        push_str(
            &mut out,
            "\n\n[corpus_read: content truncated; call again with a narrower page or higher max_chars if the missing section is required.]",
        );
    }
    out
}

impl CorpusReadTool {
    /// The tool.
    pub fn new() -> (r: Self) {
        CorpusReadTool
    }

    /// The name the tool is offered under.
    pub fn name(&self) -> (r: &'static str)
        ensures
            r@ == TOOL_NAME@,
    {
        TOOL_NAME
    }

    /// The reply for a request, given the document its id found (if any).
    pub fn call(&self, request: &CorpusReadRequest, doc: Option<&CorpusDoc>) -> (r: Result<String, String>)
        ensures
            match doc {
                Some(d) => r matches Ok(s) && s@ == doc_text(*d, request.max_chars),
                None => r matches Err(e) && e@ == "corpus document not found: "@ + request.id@,
            },
    {
        match doc {
            Some(d) => Ok(render_doc(d, request.max_chars)),
            None => {
                let mut e = owned("corpus document not found: ");
                push_str(&mut e, request.id.as_str());
                Err(e)
            },
        }
    }
}


/// What the tool tells the model it is for.
pub const DESCRIPTION: &'static str = "Read a local LEEK investment corpus / 投研智库 document by id after `corpus_search` returns a relevant hit. Use this when a snippet is not enough and the task needs the full reasoning lens, source context, or exact page wording. Accepts corpus ids such as `wikis/principles/concepts/margin-of-safety` or `sources/principles/buffett/letters/1993`. This reads only the embedded local corpus; use `web_fetch` for external URLs.";

impl CorpusReadTool {
    /// The function the tool is offered as: its name, its description
    /// and the schema of its parameters.
    pub fn spec(&self) -> (s: ToolSpec)
        ensures
            s matches ToolSpec::Function { name, description, parameters } && name@ == TOOL_NAME@ && description@
                == DESCRIPTION@ && schema_shape(
                parameters,
                seq!["id"@, "max_chars"@],
                seq!["id"@],
            ),
    {
        let mut props: Vec<(String, Json)> = Vec::new();
        props.push((owned("id"), Json::Object(vec![
            (owned("type"), json_str("string")),
            (owned("description"), json_str("Corpus document id returned by corpus_search, without .md suffix.")),
        ])));
        props.push((owned("max_chars"), Json::Object(vec![
            (owned("type"), json_str("integer")),
            (owned("description"), json_str("Optional cap on returned body characters (default 20000, hard max 60000).")),
        ])));
        let ghost keys = member_keys(props@);
        let required = strings(vec!["id"]);
        proof {
            assert(keys =~= seq!["id"@, "max_chars"@]);
            assert(views(required@) =~= seq!["id"@]);
        }
        let parameters = object_schema(props, required);
        ToolSpec::Function { name: owned(TOOL_NAME), description: owned(DESCRIPTION), parameters }
    }
}

} // verus!
