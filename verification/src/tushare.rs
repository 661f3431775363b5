//! Reading a Tushare Pro answer: the error an answer reports, and its
//! table of field names and rows.
use vstd::prelude::*;

use crate::json::{find_member, str_items, str_items_exec, Json};
use crate::table::Table;
use crate::text::{chars_eq, chars_of, owned, push_str, signed_decimal, fmt_i64, views};

verus! {

/// The status code of an answer, `-1` when it has none.
pub open spec fn answer_code(body: Json) -> int {
    match body.get_spec("code"@) {
        Some(v) => match v.i64_spec() {
            Some(c) => c as int,
            None => -1,
        },
        None => -1,
    }
}

/// The error an answer reports: `tushare error (code=..): msg`, with
/// `unknown` standing for a missing message; none for code zero.
pub open spec fn answer_error_text(body: Json, unknown: Seq<char>) -> Option<Seq<char>> {
    if answer_code(body) == 0 {
        None
    } else {
        Some(
            "tushare error (code="@ + signed_decimal(answer_code(body)) + "): "@ + match body.get_spec(
                "msg"@,
            ) {
                Some(v) => match v.str_spec() {
                    Some(m) => m,
                    None => unknown,
                },
                None => unknown,
            },
        )
    }
}

/// The error an answer reports, if any.
pub fn answer_error(body: &Json, unknown: &str) -> (r: Option<String>)
    ensures
        match answer_error_text(*body, unknown@) {
            Some(t) => r matches Some(e) && e@ == t,
            None => r is None,
        },
{
    let code: i64 = match body.get("code") {
        Some(v) => match v.as_i64() {
            Some(c) => c,
            None => -1,
        },
        None => -1,
    };
    if code == 0 {
        return None;
    }
    let mut e = owned("tushare error (code=");
    push_str(&mut e, fmt_i64(code).as_str());
    push_str(&mut e, "): ");
    let msg = match body.get("msg") {
        Some(v) => match v.as_str() {
            Some(m) => m,
            None => unknown,
        },
        None => unknown,
    };
    push_str(&mut e, msg);
    Some(e)
}

/// Takes the member `key` out of an object: `value.get(key)`, by value.
pub fn take_member(j: Json, key: &str) -> (r: Option<Json>)
    ensures
        r == j.get_spec(key@),
{
    match j {
        Json::Object(mut members) => {
            let ghost orig = members@;
            let k = chars_of(key);
            let mut i: usize = 0;
            while i < members.len()
                invariant
                    i <= members.len(),
                    k@ == key@,
                    members@ == orig,
                    j is Object,
                    j->Object_0@ == orig,
                    find_member(orig, key@, 0) == find_member(orig, key@, i as int),
                decreases members.len() - i,
            {
                let mk = chars_of(members[i].0.as_str());
                if chars_eq(mk.as_slice(), k.as_slice()) {
                    assert(find_member(orig, key@, i as int) == Some(i as int));
                    let (_, v) = members.remove(i);
                    return Some(v);
                }
                i = i + 1;
            }
            None
        },
        _ => None,
    }
}

/// The element sequences of the array items, in order; other items are
/// skipped.
pub open spec fn row_arrays(items: Seq<Json>) -> Seq<Seq<Json>>
    decreases items.len(),
{
    if items.len() == 0 {
        Seq::empty()
    } else {
        (match items[0] {
            Json::Array(a) => seq![a@],
            _ => Seq::empty(),
        }) + row_arrays(items.drop_first())
    }
}

/// Rows as element sequences.
pub open spec fn row_views(rows: Seq<Vec<Json>>) -> Seq<Seq<Json>> {
    rows.map_values(|r: Vec<Json>| r@)
}

fn into_rows(items: Vec<Json>) -> (rows: Vec<Vec<Json>>)
    ensures
        row_views(rows@) == row_arrays(items@),
{
    let ghost orig = items@;
    let mut items = items;
    let mut rows: Vec<Vec<Json>> = Vec::new();
    while items.len() > 0
        invariant
            row_views(rows@) + row_arrays(items@) == row_arrays(orig),
        decreases items.len(),
    {
        let ghost before_items = items@;
        let ghost before_rows = row_views(rows@);
        let x = items.remove(0);
        assert(items@ =~= before_items.drop_first());
        match x {
            Json::Array(a) => {
                let ghost av = a@;
                rows.push(a);
                assert(row_views(rows@) =~= before_rows + seq![av]);
                assert(before_rows + row_arrays(before_items) =~= before_rows + seq![av] + row_arrays(items@));
            },
            _ => {
                assert(before_rows + row_arrays(before_items) =~= before_rows + row_arrays(items@));
            },
        }
    }
    assert(row_arrays(items@) =~= Seq::<Seq<Json>>::empty());
    assert(row_views(rows@) =~= row_views(rows@) + row_arrays(items@));
    rows
}

/// The field names of an answer's `data`.
pub open spec fn data_fields(data: Json) -> Seq<Seq<char>> {
    match data.get_spec("fields"@) {
        Some(Json::Array(a)) => str_items(a@),
        _ => Seq::empty(),
    }
}

/// The rows of an answer's `data`.
pub open spec fn data_rows(data: Json) -> Seq<Seq<Json>> {
    match data.get_spec("items"@) {
        Some(Json::Array(a)) => row_arrays(a@),
        _ => Seq::empty(),
    }
}

/// The table of an answer's `data` object.
pub open spec fn table_of(data: Json, t: Table) -> bool {
    views(t.fields@) == data_fields(data) && row_views(t.rows@) == data_rows(data)
}

fn data_table(data: Json) -> (t: Table)
    ensures
        table_of(data, t),
{
    let fields = match data.get("fields") {
        Some(Json::Array(a)) => str_items_exec(a),
        _ => Vec::new(),
    };
    assert(views(fields@) == data_fields(data)) by {
        if !(data.get_spec("fields"@) matches Some(Json::Array(_))) {
            assert(views(fields@) =~= Seq::<Seq<char>>::empty());
        }
    }
    let rows = match take_member(data, "items") {
        Some(Json::Array(a)) => into_rows(a),
        _ => {
            let r: Vec<Vec<Json>> = Vec::new();
            assert(row_views(r@) =~= Seq::<Seq<Json>>::empty());
            r
        },
    };
    Table { fields, rows }
}

/// The table of an answer, empty when it has no `data`.
pub fn tushare_extract(body: Json) -> (t: Table)
    ensures
        match body.get_spec("data"@) {
            Some(d) => table_of(d, t),
            None => t.fields@.len() == 0 && t.rows@.len() == 0,
        },
{
    match take_member(body, "data") {
        Some(d) => data_table(d),
        None => Table { fields: Vec::new(), rows: Vec::new() },
    }
}

/// The table of an answer; an answer without `data` is an error.
pub fn tushare_data(body: Json) -> (r: Result<Table, String>)
    ensures
        match body.get_spec("data"@) {
            Some(d) => r matches Ok(t) && table_of(d, t),
            None => r matches Err(e) && e@ == "missing data in tushare response"@,
        },
{
    match take_member(body, "data") {
        Some(d) => Ok(data_table(d)),
        None => Err(owned("missing data in tushare response")),
    }
}

} // verus!
