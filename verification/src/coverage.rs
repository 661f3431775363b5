//! What a data tool's reply lacks and where its data came from: the
//! missing dimensions and the answering sources, and the closing lines
//! that list them. A source that fails becomes a missing dimension of
//! the reply, never an error of the call.
use vstd::prelude::*;

use crate::json::{find_member, str_items, Json};
use crate::text::{join, join_strings, owned, push_str, views};
use crate::tools::ToolOutcome;

verus! {

/// The missing dimensions and the answering sources of a reply.
pub struct Coverage {
    pub empty_dimensions: Vec<String>,
    pub sources: Vec<String>,
}

/// Appends `label` followed by `today`.
pub fn push_stamped(v: &mut Vec<String>, label: &str, today: &str)
    ensures
        views(final(v)@) == views(old(v)@).push(label@ + today@),
{
    let mut s = owned(label);
    push_str(&mut s, today);
    let ghost before = views(v@);
    v.push(s);
    assert(views(v@) =~= before.push(label@ + today@));
}

/// Appends a text.
pub fn push_text(v: &mut Vec<String>, s: String)
    ensures
        views(final(v)@) == views(old(v)@).push(s@),
{
    let ghost before = views(v@);
    v.push(s);
    assert(views(v@) =~= before.push(s@));
}

impl Coverage {
    /// Nothing missing, no source yet.
    pub fn new() -> (c: Self)
        ensures
            c.empty_dimensions@.len() == 0,
            c.sources@.len() == 0,
    {
        Coverage { empty_dimensions: Vec::new(), sources: Vec::new() }
    }

    /// Records the outcome of one source: when it answered, `label @
    /// today` joins the sources; else `dimension` joins the missing
    /// dimensions. Exactly one of the two lists grows.
    pub fn record(&mut self, answered: bool, label: &str, today: &str, dimension: String)
        ensures
            answered ==> views(final(self).sources@) == views(old(self).sources@).push(label@ + " @ "@ + today@)
                && final(self).empty_dimensions@ == old(self).empty_dimensions@,
            !answered ==> views(final(self).empty_dimensions@) == views(old(self).empty_dimensions@).push(dimension@)
                && final(self).sources@ == old(self).sources@,
    {
        if answered {
            let mut s = owned(label);
            push_str(&mut s, " @ ");
            push_str(&mut s, today);
            push_text(&mut self.sources, s);
        } else {
            push_text(&mut self.empty_dimensions, dimension);
        }
    }
}

/// The closing lines: the missing dimensions, then the sources, each
/// only when there are any.
pub open spec fn closing_text(dims: Seq<Seq<char>>, sources: Seq<Seq<char>>) -> Seq<char> {
    (if dims.len() == 0 {
        Seq::empty()
    } else {
        "\n_缺失维度: "@ + join(dims, ", "@) + "_\n"@
    }) + (if sources.len() == 0 {
        Seq::empty()
    } else {
        "\n数据来源: "@ + join(sources, "; "@) + "\n"@
    })
}

/// The closing lines of a reply.
pub fn closing_lines(s: &Coverage) -> (r: String)
    ensures
        r@ == closing_text(views(s.empty_dimensions@), views(s.sources@)),
{
    let mut r = owned("");
    if s.empty_dimensions.len() > 0 {
        push_str(&mut r, "\n_缺失维度: ");
        push_str(&mut r, join_strings(&s.empty_dimensions, ", ").as_str());
        push_str(&mut r, "_\n");
    }
    if s.sources.len() > 0 {
        push_str(&mut r, "\n数据来源: ");
        push_str(&mut r, join_strings(&s.sources, "; ").as_str());
        push_str(&mut r, "\n");
    }
    proof {
        reveal_strlit("");
    }
    assert(r@ =~= closing_text(views(s.empty_dimensions@), views(s.sources@)));
    r
}

// ---------------------------------------------------------------------
// What a source gave
// ---------------------------------------------------------------------
/// The source answered with at least one row.
pub open spec fn gave_rows(result: Result<Vec<Json>, String>) -> bool {
    match result {
        Ok(v) => v@.len() > 0,
        Err(_) => false,
    }
}

/// Records a source that answers with rows: it counts as answered when
/// it gave at least one row, else `dimension` is missing. The rows it
/// gave, or none.
pub fn take_rows(c: &mut Coverage, result: Result<Vec<Json>, String>, label: &str, today: &str, dimension: &str) -> (rows: Vec<Json>)
    ensures
        ({
            let answered = gave_rows(result);
            &&& answered ==> views(final(c).sources@) == views(old(c).sources@).push(label@ + " @ "@ + today@)
                && final(c).empty_dimensions@ == old(c).empty_dimensions@
            &&& !answered ==> views(final(c).empty_dimensions@) == views(old(c).empty_dimensions@).push(dimension@)
                && final(c).sources@ == old(c).sources@
            &&& answered ==> (result matches Ok(v) && rows@ == v@)
            &&& !answered ==> rows@.len() == 0
        }),
{
    match result {
        Ok(v) => {
            if v.len() > 0 {
                c.record(true, label, today, owned(dimension));
                v
            } else {
                c.record(false, label, today, owned(dimension));
                Vec::new()
            }
        },
        Err(_) => {
            c.record(false, label, today, owned(dimension));
            Vec::new()
        },
    }
}

/// Records a source whose every answer counts, empty or not: a failure
/// is missing as `prefix:message`. The rows it gave, or none.
pub fn take_answer(c: &mut Coverage, result: Result<Vec<Json>, String>, label: &str, today: &str, prefix: &str) -> (rows: Vec<Json>)
    ensures
        match result {
            Ok(v) => rows@ == v@ && views(final(c).sources@) == views(old(c).sources@).push(label@ + " @ "@ + today@)
                && final(c).empty_dimensions@ == old(c).empty_dimensions@,
            Err(m) => rows@.len() == 0 && views(final(c).empty_dimensions@) == views(old(c).empty_dimensions@).push(
                prefix@ + ":"@ + m@,
            ) && final(c).sources@ == old(c).sources@,
        },
{
    match result {
        Ok(v) => {
            c.record(true, label, today, owned(prefix));
            v
        },
        Err(m) => {
            let mut d = owned(prefix);
            push_str(&mut d, ":");
            push_str(&mut d, m.as_str());
            c.record(false, label, today, d);
            Vec::new()
        },
    }
}

// ---------------------------------------------------------------------
// The reply
// ---------------------------------------------------------------------
/// `j` is the JSON array of the strings `v`, in order.
pub open spec fn is_string_array(j: Json, v: Seq<Seq<char>>) -> bool {
    match j {
        Json::Array(a) => a@.len() == v.len() && forall|i: int|
            0 <= i < v.len() ==> (#[trigger] a@[i]).str_spec() == Some(v[i]),
        _ => false,
    }
}

/// The strings of an array whose items are all strings.
proof fn lemma_str_items_all(a: Seq<Json>, v: Seq<Seq<char>>)
    requires
        a.len() == v.len(),
        forall|i: int| 0 <= i < v.len() ==> (#[trigger] a[i]).str_spec() == Some(v[i]),
    ensures
        str_items(a) == v,
    decreases a.len(),
{
    if a.len() > 0 {
        let p = a.drop_last();
        let q = v.drop_last();
        assert forall|i: int| 0 <= i < q.len() implies (#[trigger] p[i]).str_spec() == Some(q[i]) by {
            assert(p[i] == a[i]);
        }
        lemma_str_items_all(p, q);
        assert(a.last() == a[a.len() - 1]);
        assert(str_items(a) =~= v);
    }
}

/// The JSON array of `v`.
pub fn string_array(v: &Vec<String>) -> (j: Json)
    ensures
        is_string_array(j, views(v@)),
        j matches Json::Array(a) && str_items(a@) == views(v@),
{
    let mut a: Vec<Json> = Vec::new();
    let mut i: usize = 0;
    while i < v.len()
        invariant
            i <= v.len(),
            a@.len() == i,
            forall|k: int| 0 <= k < i ==> (#[trigger] a@[k]).str_spec() == Some(v@[k]@),
        decreases v.len() - i,
    {
        a.push(Json::String(v[i].clone()));
        i = i + 1;
    }
    proof {
        assert forall|k: int| 0 <= k < views(v@).len() implies (#[trigger] a@[k]).str_spec() == Some(views(v@)[k]) by {
            assert(views(v@)[k] == v@[k]@);
        }
        lemma_str_items_all(a@, views(v@));
    }
    Json::Array(a)
}

/// The members of a reply payload after its own `n` members: the
/// missing dimensions, then the sources.
pub open spec fn coverage_tail(m: Seq<(String, Json)>, n: int, c: Coverage) -> bool {
    &&& m.len() == n + 2
    &&& m[n].0@ == "empty_dimensions"@ && is_string_array(m[n].1, views(c.empty_dimensions@))
    &&& m[n + 1].0@ == "sources"@ && is_string_array(m[n + 1].1, views(c.sources@))
}

/// A successful reply whose payload is `head` followed by the missing
/// dimensions and the sources of `c`: gaps are data of the reply, never
/// an error of the call.
pub fn coverage_reply(model_output: String, head: Vec<(String, Json)>, c: &Coverage, debug: Json) -> (r: ToolOutcome)
    ensures
        !r.is_error,
        r.model_output == model_output,
        r.debug_payload == debug,
        r.display_payload matches Json::Object(m) && m@.take(head@.len() as int) == head@ && coverage_tail(
            m@,
            head@.len() as int,
            *c,
        ),
{
    let ghost h = head@;
    let mut m = head;
    m.push((owned("empty_dimensions"), string_array(&c.empty_dimensions)));
    m.push((owned("sources"), string_array(&c.sources)));
    assert(m@.take(h.len() as int) =~= h);
    ToolOutcome::ok(model_output, Json::Object(m), debug)
}

/// A member `(key, value)`.
pub fn member(key: &str, value: Json) -> (r: (String, Json))
    ensures
        r.0@ == key@,
        r.1 == value,
{
    (owned(key), value)
}

/// A string member `(key, "text")`.
pub fn text_member(key: &str, text: &str) -> (r: (String, Json))
    ensures
        r.0@ == key@,
        r.1.str_spec() == Some(text@),
{
    (owned(key), Json::String(owned(text)))
}

/// The first member under `m[i]`'s key is `m[i]` where no earlier member
/// has that key.
proof fn lemma_find_first(m: Seq<(String, Json)>, i: int, start: int)
    requires
        0 <= start <= i < m.len(),
        forall|j: int| start <= j < i ==> (#[trigger] m[j]).0@ != m[i].0@,
    ensures
        find_member(m, m[i].0@, start) == Some(i),
    decreases i - start,
{
    if start < i {
        lemma_find_first(m, i, start + 1);
    }
}

/// The reply of a data tool with a focus: `model_output` as given, and
/// the payload `{"kind", "focus", "data", "empty_dimensions", "sources"}`
/// with the call's gaps and sources; the debug view names the focus.
pub fn gap_reply(kind: &str, focus: &str, model_output: String, data: Json, c: &Coverage) -> (r: ToolOutcome)
    ensures
        !r.is_error,
        r.model_output == model_output,
        r.display_payload.get_spec("kind"@) matches Some(Json::String(k)) && k@ == kind@,
        r.display_payload.get_spec("focus"@) matches Some(Json::String(f)) && f@ == focus@,
        r.display_payload.get_spec("empty_dimensions"@) matches Some(Json::Array(a)) && str_items(a@) == views(
            c.empty_dimensions@,
        ),
        r.display_payload.get_spec("sources"@) matches Some(Json::Array(s)) && str_items(s@) == views(c.sources@),
        r.display_payload.get_spec("data"@) == Some(data),
        r.debug_payload.get_spec("focus"@) matches Some(Json::String(f)) && f@ == focus@,
{
    let mut head: Vec<(String, Json)> = Vec::new();
    head.push(text_member("kind", kind));
    head.push(text_member("focus", focus));
    head.push(member("data", data));
    let mut dm: Vec<(String, Json)> = Vec::new();
    dm.push(text_member("focus", focus));
    let debug = Json::Object(dm);
    let ghost h = head@;
    let r = coverage_reply(model_output, head, c, debug);
    proof {
        reveal_strlit("kind");
        reveal_strlit("focus");
        reveal_strlit("data");
        reveal_strlit("empty_dimensions");
        reveal_strlit("sources");
        let m = r.display_payload->Object_0@;
        assert(m[0] == h[0] && m[1] == h[1] && m[2] == h[2]);
        assert(m[0].0@ == "kind"@);
        assert(m[1].0@ == "focus"@);
        assert(m[2].0@ == "data"@);
        assert(m[3].0@ == "empty_dimensions"@);
        assert(m[4].0@ == "sources"@);
        assert(("kind"@)[0] != ("focus"@)[0]);
        assert(("kind"@)[0] != ("data"@)[0]);
        assert(("focus"@)[0] != ("data"@)[0]);
        assert(("empty_dimensions"@).len() != ("kind"@).len());
        assert(("empty_dimensions"@).len() != ("focus"@).len());
        assert(("empty_dimensions"@).len() != ("data"@).len());
        assert(("sources"@).len() != ("kind"@).len());
        assert(("sources"@).len() != ("focus"@).len());
        assert(("sources"@).len() != ("data"@).len());
        assert(("sources"@).len() != ("empty_dimensions"@).len());
        lemma_find_first(m, 0, 0);
        lemma_find_first(m, 1, 0);
        lemma_find_first(m, 2, 0);
        lemma_find_first(m, 3, 0);
        lemma_find_first(m, 4, 0);
        let d = r.debug_payload->Object_0@;
        lemma_find_first(d, 0, 0);
        let ea = m[3].1->Array_0@;
        let sa = m[4].1->Array_0@;
        lemma_str_items_all(ea, views(c.empty_dimensions@));
        lemma_str_items_all(sa, views(c.sources@));
    }
    r
}

/// Member `i` of `m` is `key` with the text `val`.
pub open spec fn str_at(m: Seq<(String, Json)>, i: int, key: Seq<char>, val: Seq<char>) -> bool {
    0 <= i < m.len() && m[i].0@ == key && m[i].1.str_spec() == Some(val)
}

/// Member `i` of `m` is `key` with the value `val`.
pub open spec fn json_at(m: Seq<(String, Json)>, i: int, key: Seq<char>, val: Json) -> bool {
    0 <= i < m.len() && m[i].0@ == key && m[i].1 == val
}

/// Member `i` of `m` is `key` with the strings `v` as an array.
pub open spec fn array_at(m: Seq<(String, Json)>, i: int, key: Seq<char>, v: Seq<Seq<char>>) -> bool {
    0 <= i < m.len() && m[i].0@ == key && is_string_array(m[i].1, v)
}

/// Member `i` of `m` is `key` with the number `n`.
pub open spec fn u64_at(m: Seq<(String, Json)>, i: int, key: Seq<char>, n: u64) -> bool {
    0 <= i < m.len() && m[i].0@ == key && m[i].1.u64_spec() == Some(n)
}

/// Member `i` of `m` is `key` with the flag `b`.
pub open spec fn bool_at(m: Seq<(String, Json)>, i: int, key: Seq<char>, b: bool) -> bool {
    0 <= i < m.len() && m[i].0@ == key && m[i].1.bool_spec() == Some(b)
}

/// A string-array member `(key, [..])`.
pub fn array_member(key: &str, v: &Vec<String>) -> (r: (String, Json))
    ensures
        r.0@ == key@,
        is_string_array(r.1, views(v@)),
{
    (owned(key), string_array(v))
}

/// A number member `(key, n)`.
pub fn u64_member(key: &str, n: u64) -> (r: (String, Json))
    ensures
        r.0@ == key@,
        r.1.u64_spec() == Some(n),
{
    (owned(key), crate::json::json_u64(n))
}

/// A flag member `(key, b)`.
pub fn bool_member(key: &str, b: bool) -> (r: (String, Json))
    ensures
        r.0@ == key@,
        r.1.bool_spec() == Some(b),
{
    (owned(key), Json::Bool(b))
}

/// The members of a reply payload that lead it are those given.
pub proof fn lemma_head(m: Seq<(String, Json)>, h: Seq<(String, Json)>)
    requires
        m.take(h.len() as int) == h,
        h.len() <= m.len(),
    ensures
        forall|i: int| 0 <= i < h.len() ==> #[trigger] m[i] == h[i],
{
    assert forall|i: int| 0 <= i < h.len() implies #[trigger] m[i] == h[i] by {
        assert(m.take(h.len() as int)[i] == m[i]);
    }
}

/// One source of a focus: the key its rows go under in the reply data,
/// its source label, the dimension it leaves missing, and what it gave.
pub struct SourceRows {
    pub key: String,
    pub label: String,
    pub dimension: String,
    pub result: Result<Vec<Json>, String>,
}

/// The source stamps of the sources that gave rows, in order.
pub open spec fn stamps_of(srcs: Seq<SourceRows>, today: Seq<char>) -> Seq<Seq<char>>
    decreases srcs.len(),
{
    if srcs.len() == 0 {
        Seq::empty()
    } else {
        stamps_of(srcs.drop_last(), today) + if gave_rows(srcs.last().result) {
            seq![srcs.last().label@ + " @ "@ + today]
        } else {
            Seq::empty()
        }
    }
}

/// The dimensions of the sources that gave no rows, in order.
pub open spec fn gaps_of(srcs: Seq<SourceRows>) -> Seq<Seq<char>>
    decreases srcs.len(),
{
    if srcs.len() == 0 {
        Seq::empty()
    } else {
        gaps_of(srcs.drop_last()) + if gave_rows(srcs.last().result) {
            Seq::empty()
        } else {
            seq![srcs.last().dimension@]
        }
    }
}

/// The rows a source contributes: all it gave, or none.
pub open spec fn rows_of(r: Result<Vec<Json>, String>) -> Seq<Json> {
    match r {
        Ok(v) => if v@.len() > 0 {
            v@
        } else {
            Seq::empty()
        },
        Err(_) => Seq::empty(),
    }
}

/// The data of a focus fed by several row sources: `{key: rows, ...}` in
/// source order, each source recorded on `c` as answered when it gave
/// rows and as missing otherwise.
pub fn rows_data(c: &mut Coverage, sources: Vec<SourceRows>, today: &str) -> (data: Json)
    ensures
        data matches Json::Object(m) && m@.len() == sources@.len() && forall|i: int|
            0 <= i < sources@.len() ==> (#[trigger] m@[i]).0@ == sources@[i].key@ && (m@[i].1 matches Json::Array(a)
                && a@ == rows_of(sources@[i].result)),
        views(final(c).sources@) == views(old(c).sources@) + stamps_of(sources@, today@),
        views(final(c).empty_dimensions@) == views(old(c).empty_dimensions@) + gaps_of(sources@),
{
    let ghost all = sources@;
    let n = sources.len();
    let ghost s0 = views(c.sources@);
    let ghost d0 = views(c.empty_dimensions@);
    let mut rest = sources;
    let mut members: Vec<(String, Json)> = Vec::new();
    let mut done: usize = 0;
    assert(all.take(0) =~= Seq::<SourceRows>::empty());
    while rest.len() > 0
        invariant
            done + rest@.len() == all.len(),
            all.len() == n,
            rest@ == all.skip(done as int),
            members@.len() == done,
            forall|i: int| 0 <= i < done ==> (#[trigger] members@[i]).0@ == all[i].key@ && (members@[i].1 matches Json::Array(a)
                && a@ == rows_of(all[i].result)),
            views(c.sources@) == s0 + stamps_of(all.take(done as int), today@),
            views(c.empty_dimensions@) == d0 + gaps_of(all.take(done as int)),
        decreases rest.len(),
    {
        let src = rest.remove(0);
        assert(src == all[done as int]);
        assert(all.take(done + 1).drop_last() =~= all.take(done as int));
        assert(all.take(done + 1).last() == src);
        assert(rest@ =~= all.skip(done + 1));
        let ghost before_s = views(c.sources@);
        let ghost before_d = views(c.empty_dimensions@);
        let SourceRows { key, label, dimension, result } = src;
        let rows = take_rows(c, result, label.as_str(), today, dimension.as_str());
        assert(views(c.sources@) =~= s0 + stamps_of(all.take(done + 1), today@));
        assert(views(c.empty_dimensions@) =~= d0 + gaps_of(all.take(done + 1)));
        members.push((key, Json::Array(rows)));
        done = done + 1;
    }
    assert(all.take(all.len() as int) =~= all);
    Json::Object(members)
}

} // verus!
