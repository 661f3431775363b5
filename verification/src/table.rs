//! Column-named tables as returned by the structured data source: a list
//! of field names and rows of JSON cells in the same order.
use vstd::prelude::*;

use crate::json::{value_text, value_text_exec, Json};
use crate::text::{chars_eq, chars_of};

verus! {

/// A tabular payload: `fields[i]` names the `i`-th cell of every row.
pub struct Table {
    pub fields: Vec<String>,
    pub rows: Vec<Vec<Json>>,
}

/// Index of the first field, at `start` or later, named `field`.
pub open spec fn find_field(fields: Seq<String>, field: Seq<char>, start: int) -> Option<int>
    decreases fields.len() - start,
{
    if start < 0 || start >= fields.len() {
        None
    } else if fields[start]@ == field {
        Some(start)
    } else {
        find_field(fields, field, start + 1)
    }
}

/// The text of the cell named `field` in `row`: the first field of that
/// name picks the column; a missing column or cell reads as empty.
pub open spec fn cell_text(fields: Seq<String>, row: Seq<Json>, field: Seq<char>) -> Seq<char> {
    match find_field(fields, field, 0) {
        Some(i) => if i < row.len() {
            value_text(row[i])
        } else {
            Seq::empty()
        },
        None => Seq::empty(),
    }
}

/// The text of `field` in the first row, or empty for a table without rows.
pub open spec fn first_cell_text(t: Table, field: Seq<char>) -> Seq<char> {
    if t.rows@.len() == 0 {
        Seq::empty()
    } else {
        cell_text(t.fields@, t.rows@[0]@, field)
    }
}

/// Position of `field` among `fields`.
pub fn field_position(fields: &Vec<String>, field: &str) -> (r: Option<usize>)
    ensures
        match r {
            Some(i) => find_field(fields@, field@, 0) == Some(i as int),
            None => find_field(fields@, field@, 0) is None,
        },
{
    let f = chars_of(field);
    let mut i: usize = 0;
    while i < fields.len()
        invariant
            i <= fields.len(),
            f@ == field@,
            find_field(fields@, field@, 0) == find_field(fields@, field@, i as int),
        decreases fields.len() - i,
    {
        let name = chars_of(fields[i].as_str());
        if chars_eq(name.as_slice(), f.as_slice()) {
            return Some(i);
        }
        i = i + 1;
    }
    None
}

impl Table {
    /// A table with no fields and no rows.
    pub fn empty() -> (t: Table)
        ensures
            t.fields@.len() == 0,
            t.rows@.len() == 0,
    {
        Table { fields: Vec::new(), rows: Vec::new() }
    }

    /// The text of the cell named `field` in `row`.
    pub fn text(&self, row: &[Json], field: &str) -> (r: String)
        ensures
            r@ == cell_text(self.fields@, row@, field@),
    {
        match field_position(&self.fields, field) {
            Some(i) => {
                if i < row.len() {
                    value_text_exec(&row[i])
                } else {
                    String::new()
                }
            },
            None => String::new(),
        }
    }

    /// The text of `field` in the first row.
    pub fn first_text(&self, field: &str) -> (r: String)
        ensures
            r@ == first_cell_text(*self, field@),
    {
        if self.rows.len() == 0 {
            String::new()
        } else {
            self.text(self.rows[0].as_slice(), field)
        }
    }
}

/// The text of an optional cell: empty when absent.
pub open spec fn opt_text(v: Option<Json>) -> Seq<char> {
    match v {
        Some(j) => value_text(j),
        None => Seq::empty(),
    }
}

/// `opt_text` of an optional cell.
pub fn opt_text_exec(v: Option<&Json>) -> (r: String)
    ensures
        r@ == opt_text(match v {
            Some(j) => Some(*j),
            None => None,
        }),
{
    match v {
        Some(j) => value_text_exec(j),
        None => String::new(),
    }
}

/// The concatenated texts `f` gives for `rows`, in order.
pub open spec fn rows_text(rows: Seq<Vec<Json>>, f: spec_fn(Seq<Json>) -> Seq<char>) -> Seq<char>
    decreases rows.len(),
{
    if rows.len() == 0 {
        Seq::empty()
    } else {
        rows_text(rows.drop_last(), f) + f(rows.last()@)
    }
}

/// The first `n` rows (all of them when there are fewer).
pub open spec fn first_n_rows(rows: Seq<Vec<Json>>, n: int) -> Seq<Vec<Json>> {
    if n >= rows.len() {
        rows
    } else {
        rows.take(n)
    }
}

} // verus!
