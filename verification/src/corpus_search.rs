//! `corpus_search`: the request a keyword search of the corpus reads,
//! and the list of hits handed to the model.
use vstd::prelude::*;

use crate::tools::{card_of, str_arg_or, summary_snippet, snippet, ToolUi, ResultArtifact};
use crate::tool_args::str_or;

use crate::json::{arg_str, arg_u64, get_str, get_u64, Json};
use crate::text::{decimal, fmt_u64, is_blank, owned, push_str, trim, trim_str};

verus! {

/// Hits returned when the call names no limit.
pub const DEFAULT_LIMIT: usize = 5;

/// Most hits one call returns.
pub const MAX_LIMIT: usize = 25;

/// The hit limit a call names, kept within `1..=25`, else five.
pub open spec fn limit_spec(args: Json) -> usize {
    match arg_u64(args, "limit"@) {
        Some(n) => if n < 1 {
            1
        } else if n > MAX_LIMIT {
            MAX_LIMIT
        } else {
            n as usize
        },
        None => DEFAULT_LIMIT,
    }
}

/// A search request: the trimmed query and the hit limit.
pub struct SearchRequest {
    pub query: String,
    pub limit: usize,
}

/// Reads a search call: the query is required and must hold more than
/// whitespace.
pub fn search_request(args: &Json) -> (r: Result<SearchRequest, String>)
    ensures
        match arg_str(*args, "query"@) {
            None => r matches Err(e) && e@ == "corpus_search: missing required string argument 'query'."@,
            Some(q) => if trim(q).len() == 0 {
                r matches Err(e) && e@ == "corpus_search: 'query' must be non-empty."@
            } else {
                r matches Ok(req) && req.query@ == trim(q) && req.limit == limit_spec(*args)
            },
        },
{
    let raw = match get_str(args, "query") {
        Some(q) => q,
        None => return Err(owned("corpus_search: missing required string argument 'query'.")),
    };
    let query = trim_str(raw);
    if is_blank(query.as_str()) {
        return Err(owned("corpus_search: 'query' must be non-empty."));
    }
    let limit: usize = match get_u64(args, "limit") {
        Some(n) => if n < 1 {
            1
        } else if n > 25 {
            MAX_LIMIT
        } else {
            n as usize
        },
        None => DEFAULT_LIMIT,
    };
    Ok(SearchRequest { query, limit })
}

/// One hit as the model sees it.
pub struct CorpusHit {
    pub id: String,
    pub title: String,
    pub snippet: String,
}

/// The lines of hits `from` on, numbered from `from + 1`.
pub open spec fn hit_lines(hits: Seq<CorpusHit>, from: int) -> Seq<char>
    decreases hits.len() - from,
{
    if from < 0 || from >= hits.len() {
        Seq::empty()
    } else {
        decimal((from + 1) as nat) + ". "@ + hits[from].id@ + " — "@ + hits[from].title@ + "\n   "@
            + hits[from].snippet@ + "\n"@ + hit_lines(hits, from + 1)
    }
}

/// The hit list handed to the model.
pub open spec fn hits_text(query: Seq<char>, hits: Seq<CorpusHit>) -> Seq<char> {
    if hits.len() == 0 {
        "Found 0 hits for \""@ + query + "\"."@
    } else {
        "Found "@ + decimal(hits.len()) + " hits for \""@ + query + "\":\n"@ + hit_lines(hits, 0)
    }
}

/// The hit list handed to the model.
pub fn hits_reply(query: &str, hits: &Vec<CorpusHit>) -> (r: String)
    ensures
        r@ == hits_text(query@, hits@),
{
    if hits.len() == 0 {
        let mut r = owned("Found 0 hits for \"");
        push_str(&mut r, query);
        push_str(&mut r, "\".");
        return r;
    }
    let mut r = owned("Found ");
    push_str(&mut r, fmt_u64(hits.len() as u64).as_str());
    push_str(&mut r, " hits for \"");
    push_str(&mut r, query);
    push_str(&mut r, "\":\n");
    let ghost head = r@;
    let mut i: usize = 0;
    while i < hits.len()
        invariant
            i <= hits.len(),
            head + hit_lines(hits@, 0) == r@ + hit_lines(hits@, i as int),
        decreases hits.len() - i,
    {
        let ghost rest = hit_lines(hits@, i + 1);
        push_str(&mut r, fmt_u64((i + 1) as u64).as_str());
        push_str(&mut r, ". ");
        push_str(&mut r, hits[i].id.as_str());
        push_str(&mut r, " — ");
        push_str(&mut r, hits[i].title.as_str());
        push_str(&mut r, "\n   ");
        push_str(&mut r, hits[i].snippet.as_str());
        push_str(&mut r, "\n");
        i = i + 1;
    }
    assert(hit_lines(hits@, hits@.len() as int) =~= Seq::<char>::empty());
    r
}


/// The card of the tool: its display name and card kind.
pub fn ui() -> (u: ToolUi)
    ensures
        u.display_name@ == "知识库搜索"@,
        card_of(u.result) == Some("corpus_search"@),
{
    ToolUi { display_name: "知识库搜索", result: ResultArtifact::Card("corpus_search") }
}

/// The card summary of a call: its query, as a snippet.
pub open spec fn ui_summary_of(args: Json) -> Seq<char> {
    "知识库搜索 · "@ + snippet(str_or(args, "query"@, ""@))
}

/// `ui_summary_of` the call's arguments.
pub fn ui_summary(args: &Json) -> (r: String)
    ensures
        r@ == ui_summary_of(*args),
{
    let q = str_arg_or(args, "query", "");
    let mut out = owned("知识库搜索 · ");
    push_str(&mut out, summary_snippet(q).as_str());
    out
}

} // verus!
