//! A-share industry context: the Shenwan classification of a stock, the
//! selected industry index, a peer sample and sector capital-flow
//! evidence, rendered as one markdown report.
use vstd::prelude::*;

use crate::beijing_time::{utc8_format, utc8_formatted};
use crate::get_a_share_research_sources::{clean, opt_view};
use crate::json::{arg_bool, arg_str, get_bool, get_str, value_text, value_text_exec, Json};
use crate::table::{cell_text, Table};
use crate::text::{
    chars_of, contains, contains_chars, decimal, fmt_date, fmt_date_str, fmt_i64, i64_from_str,
    owned, parse_i64, push_str, replace, replace_chars, signed_decimal, str_eq, string_of,
    to_upper, trim, trim_chars, trim_str, truncate, truncate_chars, upper_case, views,
};

verus! {

// ---------------------------------------------------------------------
// Text helpers
// ---------------------------------------------------------------------
/// Trimmed text with newlines, carriage returns and tabs turned into
/// spaces, cut to `max_chars` characters with `…` appended.
pub open spec fn compact(s: Seq<char>, max_chars: int) -> Seq<char> {
    truncate(
        replace(replace(replace(trim(s), seq!['\n'], seq![' ']), seq!['\r'], seq![' ']), seq!['\t'], seq![' ']),
        max_chars,
        seq!['…'],
    )
}

/// `compact` of a text.
pub fn compact_text(text: &str, max_chars: usize) -> (r: String)
    ensures
        r@ == compact(text@, max_chars as int),
{
    let v = chars_of(text);
    let t = trim_chars(v.as_slice());
    let sp = [' '];
    let a = replace_chars(t.as_slice(), &['\n'], &sp);
    let b = replace_chars(a.as_slice(), &['\r'], &sp);
    let c = replace_chars(b.as_slice(), &['\t'], &sp);
    assert(sp@ =~= seq![' ']);
    assert((&['\n'])@ =~= seq!['\n']);
    assert((&['\r'])@ =~= seq!['\r']);
    assert((&['\t'])@ =~= seq!['\t']);
    let r = truncate_chars(c.as_slice(), max_chars, "…");
    proof {
        reveal_strlit("…");
    }
    string_of(r.as_slice())
}

/// A cleaned value: trimmed, and absent when blank or a lone `-`.
pub open spec fn clean_dash(v: Option<Seq<char>>) -> Option<Seq<char>> {
    match v {
        Some(s) => if trim(s).len() == 0 || trim(s) == "-"@ {
            None
        } else {
            Some(trim(s))
        },
        None => None,
    }
}

/// `clean_dash` of an optional text.
pub fn clean_opt(value: Option<&str>) -> (r: Option<String>)
    ensures
        opt_view(r) == clean_dash(match value {
            Some(s) => Some(s@),
            None => None,
        }),
{
    match value {
        Some(s) => {
            let t = trim_str(s);
            if t.as_str().is_empty() || str_eq(t.as_str(), "-") {
                None
            } else {
                Some(t)
            }
        },
        None => None,
    }
}

/// The message a reply carries: `message`, else `msg`, each cleaned.
pub fn message_text(message: &Option<String>, msg: &Option<String>) -> (r: Option<String>)
    ensures
        opt_view(r) == if clean_dash(opt_view(*message)) is Some {
            clean_dash(opt_view(*message))
        } else {
            clean_dash(opt_view(*msg))
        },
{
    let a = match message {
        Some(m) => clean_opt(Some(m.as_str())),
        None => None,
    };
    if a.is_some() {
        return a;
    }
    match msg {
        Some(m) => clean_opt(Some(m.as_str())),
        None => None,
    }
}

/// The text of an optional cell, trimmed; empty when absent, blank or
/// a lone `-`.
pub open spec fn cell_value_text(v: Option<Json>) -> Seq<char> {
    match v {
        Some(j) => match clean_dash(Some(value_text(j))) {
            Some(t) => t,
            None => Seq::empty(),
        },
        None => Seq::empty(),
    }
}

/// The view of an optional borrowed cell.
pub open spec fn opt_json(v: Option<&Json>) -> Option<Json> {
    match v {
        Some(j) => Some(*j),
        None => None,
    }
}

/// `cell_value_text` of an optional cell.
pub fn value_text_opt(v: Option<&Json>) -> (r: String)
    ensures
        r@ == cell_value_text(opt_json(v)),
{
    match v {
        Some(j) => {
            let t = value_text_exec(j);
            match clean_opt(Some(t.as_str())) {
                Some(c) => c,
                None => String::new(),
            }
        },
        None => String::new(),
    }
}

/// ` (code)` for a non-empty cell, else nothing.
pub open spec fn code_suffix(v: Option<Json>) -> Seq<char> {
    if cell_value_text(v).len() == 0 {
        Seq::empty()
    } else {
        " ("@ + cell_value_text(v) + ")"@
    }
}

/// `code_suffix` of an optional cell.
pub fn suffix_code(v: Option<&Json>) -> (r: String)
    ensures
        r@ == code_suffix(opt_json(v)),
{
    let code = value_text_opt(v);
    if code.as_str().is_empty() {
        String::new()
    } else {
        let mut out = owned(" (");
        push_str(&mut out, code.as_str());
        push_str(&mut out, ")");
        out
    }
}

/// The integer a cell holds: an integer number, the truncation of a
/// fractional one, or a string that parses as one after trimming.
pub open spec fn cell_i64(v: Option<Json>) -> Option<i64> {
    match v {
        Some(Json::Number(n)) => match n.as_i64 {
            Some(i) => Some(i),
            None => n.truncated,
        },
        Some(Json::String(s)) => i64_from_str(trim(s@)),
        _ => None,
    }
}

/// `cell_i64` of an optional cell.
pub fn value_i64(v: Option<&Json>) -> (r: Option<i64>)
    ensures
        r == cell_i64(opt_json(v)),
{
    match v {
        Some(Json::Number(n)) => match n.as_i64 {
            Some(i) => Some(i),
            None => n.truncated,
        },
        Some(Json::String(s)) => {
            let t = trim_str(s.as_str());
            parse_i64(t.as_str())
        },
        _ => None,
    }
}

/// The minute-precision UTC+8 text of an epoch cell given in seconds or
/// milliseconds; the raw number where the instant is out of range; empty
/// when the cell holds no integer.
pub open spec fn epoch_text(v: Option<Json>) -> Seq<char> {
    match cell_i64(v) {
        None => Seq::empty(),
        Some(raw) => {
            let seconds: int = if raw > 9_999_999_999 {
                raw / 1000
            } else {
                raw as int
            };
            match utc8_formatted(seconds as i64, "%Y-%m-%d %H:%M"@) {
                Some(t) => t,
                None => signed_decimal(raw as int),
            }
        },
    }
}

/// `epoch_text` of an optional cell.
pub fn eastmoney_epoch_text(v: Option<&Json>) -> (r: String)
    ensures
        r@ == epoch_text(opt_json(v)),
{
    let raw = match value_i64(v) {
        Some(raw) => raw,
        None => return String::new(),
    };
    let seconds = if raw > 9_999_999_999 {
        raw / 1000
    } else {
        raw
    };
    match utc8_format(seconds, "%Y-%m-%d %H:%M") {
        Some(t) => t,
        None => fmt_i64(raw),
    }
}

// ---------------------------------------------------------------------
// Industry selection
// ---------------------------------------------------------------------
/// The industry a report is about.
pub struct IndustrySelection {
    pub code: String,
    pub level: String,
    pub name: String,
}

/// `L1` or `L3` when the trimmed, upper-cased level names one, else `L2`.
pub open spec fn normalized_level(level: Seq<char>) -> Seq<char> {
    let u = upper_case(trim(level));
    if u == "L1"@ {
        "L1"@
    } else if u == "L3"@ {
        "L3"@
    } else {
        "L2"@
    }
}

/// `normalized_level` of a level.
pub fn normalize_level(level: &str) -> (r: String)
    ensures
        r@ == normalized_level(level@),
{
    let t = trim_str(level);
    let u = to_upper(t.as_str());
    if str_eq(u.as_str(), "L1") {
        owned("L1")
    } else if str_eq(u.as_str(), "L3") {
        owned("L3")
    } else {
        owned("L2")
    }
}

/// The levels, with their code and name fields, in the order they are
/// tried for a requested level: the requested one first.
pub open spec fn level_fields(requested: Seq<char>) -> Seq<(Seq<char>, Seq<char>, Seq<char>)> {
    let l1 = ("L1"@, "l1_code"@, "l1_name"@);
    let l2 = ("L2"@, "l2_code"@, "l2_name"@);
    let l3 = ("L3"@, "l3_code"@, "l3_name"@);
    if requested == "L1"@ {
        seq![l1, l2, l3]
    } else if requested == "L3"@ {
        seq![l3, l2, l1]
    } else {
        seq![l2, l1, l3]
    }
}

/// Views of a list of field triples.
pub open spec fn triple_views(v: Seq<(&'static str, &'static str, &'static str)>) -> Seq<(Seq<char>, Seq<char>, Seq<char>)> {
    v.map_values(|t: (&'static str, &'static str, &'static str)| (t.0@, t.1@, t.2@))
}

/// `level_fields` of a requested level.
pub fn industry_level_fields(requested_level: &str) -> (r: Vec<(&'static str, &'static str, &'static str)>)
    ensures
        triple_views(r@) == level_fields(requested_level@),
{
    let mut v: Vec<(&'static str, &'static str, &'static str)> = Vec::new();
    if str_eq(requested_level, "L1") {
        v.push(("L1", "l1_code", "l1_name"));
        v.push(("L2", "l2_code", "l2_name"));
        v.push(("L3", "l3_code", "l3_name"));
    } else if str_eq(requested_level, "L3") {
        v.push(("L3", "l3_code", "l3_name"));
        v.push(("L2", "l2_code", "l2_name"));
        v.push(("L1", "l1_code", "l1_name"));
    } else {
        v.push(("L2", "l2_code", "l2_name"));
        v.push(("L1", "l1_code", "l1_name"));
        v.push(("L3", "l3_code", "l3_name"));
    }
    assert(triple_views(v@) =~= level_fields(requested_level@));
    v
}

/// The selection a view of an industry stands for.
pub open spec fn selection_view(s: IndustrySelection) -> (Seq<char>, Seq<char>, Seq<char>) {
    (s.code@, s.level@, s.name@)
}

/// The first level, in the order `fields` tries them, whose code or name
/// the row fills.
pub open spec fn first_filled_level(
    table_fields: Seq<String>,
    row: Seq<Json>,
    fields: Seq<(Seq<char>, Seq<char>, Seq<char>)>,
) -> Option<(Seq<char>, Seq<char>, Seq<char>)>
    decreases fields.len(),
{
    if fields.len() == 0 {
        None
    } else {
        let (level, code_field, name_field) = fields[0];
        let code = cell_text(table_fields, row, code_field);
        let name = cell_text(table_fields, row, name_field);
        if code.len() == 0 && name.len() == 0 {
            first_filled_level(table_fields, row, fields.drop_first())
        } else {
            Some((code, level, name))
        }
    }
}

/// The first level, in the order `fields` tries them, whose code field
/// holds `code`; the selection names that level and its name.
pub open spec fn level_with_code(
    table_fields: Seq<String>,
    row: Seq<Json>,
    fields: Seq<(Seq<char>, Seq<char>, Seq<char>)>,
    code: Seq<char>,
) -> Option<(Seq<char>, Seq<char>, Seq<char>)>
    decreases fields.len(),
{
    if fields.len() == 0 {
        None
    } else {
        let (level, code_field, name_field) = fields[0];
        if cell_text(table_fields, row, code_field) == code {
            Some((code, level, cell_text(table_fields, row, name_field)))
        } else {
            level_with_code(table_fields, row, fields.drop_first(), code)
        }
    }
}

/// The industry a report is about. An explicit non-blank code wins: it
/// takes its level and name from the first classification row where one
/// of its levels carries that code, else the requested level and no
/// name. Without one, the first level (requested level first) that the
/// first classification row fills.
pub open spec fn select_industry_spec(
    table: Table,
    explicit_code: Option<Seq<char>>,
    requested_level: Seq<char>,
) -> Option<(Seq<char>, Seq<char>, Seq<char>)> {
    let level = normalized_level(requested_level);
    let fields = level_fields(level);
    match explicit_code {
        Some(code) if trim(code).len() > 0 => {
            let found = if table.rows@.len() > 0 {
                level_with_code(table.fields@, table.rows@[0]@, fields, code)
            } else {
                None
            };
            match found {
                Some(sel) => Some(sel),
                None => Some((code, level, Seq::empty())),
            }
        },
        _ => if table.rows@.len() == 0 {
            None
        } else {
            first_filled_level(table.fields@, table.rows@[0]@, fields)
        },
    }
}

/// `select_industry_spec` of a classification table.
pub fn select_industry(table: &Table, explicit_code: Option<&str>, requested_level: &str) -> (r:
    Option<IndustrySelection>)
    ensures
        match r {
            Some(sel) => select_industry_spec(
                *table,
                match explicit_code {
                    Some(c) => Some(c@),
                    None => None,
                },
                requested_level@,
            ) == Some(selection_view(sel)),
            None => select_industry_spec(
                *table,
                match explicit_code {
                    Some(c) => Some(c@),
                    None => None,
                },
                requested_level@,
            ) is None,
        },
{
    let level = normalize_level(requested_level);
    let fields = industry_level_fields(level.as_str());
    let ghost fs = triple_views(fields@);
    match explicit_code {
        Some(code) => {
            let t = trim_str(code);
            if !t.as_str().is_empty() {
                if table.rows.len() > 0 {
                    let row = table.rows[0].as_slice();
                    let mut i: usize = 0;
                    assert(fs.skip(0) =~= fs);
                    while i < fields.len()
                        invariant
                            i <= fields.len(),
                            fs == triple_views(fields@),
                            fs == level_fields(normalized_level(requested_level@)),
                            trim(code@).len() > 0,
                            explicit_code == Some(code),
                            table.rows@.len() > 0,
                            row@ == table.rows@[0]@,
                            level_with_code(table.fields@, row@, fs, code@) == level_with_code(
                                table.fields@,
                                row@,
                                fs.skip(i as int),
                                code@,
                            ),
                        decreases fields.len() - i,
                    {
                        assert(fs.skip(i as int).drop_first() =~= fs.skip(i + 1));
                        assert(fs.skip(i as int)[0] == fs[i as int]);
                        let (lv, code_field, name_field) = fields[i];
                        assert(fs[i as int] == (lv@, code_field@, name_field@));
                        let c = table.text(row, code_field);
                        if str_eq(c.as_str(), code) {
                            return Some(
                                IndustrySelection {
                                    code: owned(code),
                                    level: owned(lv),
                                    name: table.text(row, name_field),
                                },
                            );
                        }
                        i = i + 1;
                    }
                    assert(fs.skip(fields.len() as int) =~= Seq::<(Seq<char>, Seq<char>, Seq<char>)>::empty());
                }
                return Some(IndustrySelection { code: owned(code), level, name: String::new() });
            }
        },
        None => {},
    }
    if table.rows.len() == 0 {
        return None;
    }
    let row = table.rows[0].as_slice();
    let mut i: usize = 0;
    assert(fs.skip(0) =~= fs);
    while i < fields.len()
        invariant
            i <= fields.len(),
            fs == triple_views(fields@),
            fs == level_fields(normalized_level(requested_level@)),
            explicit_code matches Some(c) ==> trim(c@).len() == 0,
            table.rows@.len() > 0,
            row@ == table.rows@[0]@,
            first_filled_level(table.fields@, row@, fs) == first_filled_level(
                table.fields@,
                row@,
                fs.skip(i as int),
            ),
        decreases fields.len() - i,
    {
        assert(fs.skip(i as int).drop_first() =~= fs.skip(i + 1));
        assert(fs.skip(i as int)[0] == fs[i as int]);
        let (lv, code_field, name_field) = fields[i];
        assert(fs[i as int] == (lv@, code_field@, name_field@));
        let code = table.text(row, code_field);
        let name = table.text(row, name_field);
        if !(code.as_str().is_empty() && name.as_str().is_empty()) {
            return Some(IndustrySelection { code, level: owned(lv), name });
        }
        i = i + 1;
    }
    assert(fs.skip(fields.len() as int) =~= Seq::<(Seq<char>, Seq<char>, Seq<char>)>::empty());
    None
}


// ---------------------------------------------------------------------
// Industry names and flow matching
// ---------------------------------------------------------------------
/// `names` with the trimmed `value` appended, unless it is blank or
/// already present.
pub open spec fn push_unique(names: Seq<Seq<char>>, value: Seq<char>) -> Seq<Seq<char>> {
    let t = trim(value);
    if t.len() == 0 || names.contains(t) {
        names
    } else {
        names.push(t)
    }
}

/// Appends the trimmed `value` to `names` unless it is blank or present.
pub fn push_unique_name(names: &mut Vec<String>, value: &str)
    ensures
        views(final(names)@) == push_unique(views(old(names)@), value@),
{
    let t = trim_str(value);
    if t.as_str().is_empty() {
        return;
    }
    let mut i: usize = 0;
    while i < names.len()
        invariant
            i <= names.len(),
            t@ == trim(value@),
            forall|k: int| 0 <= k < i ==> views(names@)[k] != t@,
        decreases names.len() - i,
    {
        if str_eq(names[i].as_str(), t.as_str()) {
            assert(views(names@)[i as int] == t@);
            return;
        }
        i = i + 1;
    }
    let ghost before = views(names@);
    names.push(t);
    assert(views(names@) =~= before.push(trim(value@)));
}

/// The names the industry goes by: `fallback`, then the level names of
/// the first classification row, each once and none blank.
pub open spec fn industry_names_spec(table: Table, fallback: Seq<char>) -> Seq<Seq<char>> {
    let base = push_unique(Seq::empty(), fallback);
    if table.rows@.len() == 0 {
        base
    } else {
        let row = table.rows@[0]@;
        push_unique(
            push_unique(push_unique(base, cell_text(table.fields@, row, "l1_name"@)), cell_text(
                table.fields@,
                row,
                "l2_name"@,
            )),
            cell_text(table.fields@, row, "l3_name"@),
        )
    }
}

/// `industry_names_spec` of a classification table.
pub fn industry_names(table: &Table, fallback: &str) -> (r: Vec<String>)
    ensures
        views(r@) == industry_names_spec(*table, fallback@),
{
    let mut names: Vec<String> = Vec::new();
    assert(views(names@) =~= Seq::<Seq<char>>::empty());
    push_unique_name(&mut names, fallback);
    if table.rows.len() > 0 {
        let row = table.rows[0].as_slice();
        push_unique_name(&mut names, table.text(row, "l1_name").as_str());
        push_unique_name(&mut names, table.text(row, "l2_name").as_str());
        push_unique_name(&mut names, table.text(row, "l3_name").as_str());
    }
    names
}

/// An industry name with full-width brackets made half-width and the
/// level markers (`Ⅰ Ⅱ Ⅲ`, `III`, `II`, `I`) and spaces removed.
pub open spec fn normalized_name(v: Seq<char>) -> Seq<char> {
    let a = replace(replace(trim(v), seq!['（'], seq!['(']), seq!['）'], seq![')']);
    let b = replace(replace(replace(a, seq!['Ⅰ'], Seq::empty()), seq!['Ⅱ'], Seq::empty()), seq!['Ⅲ'], Seq::empty());
    replace(
        replace(replace(replace(b, seq!['I', 'I', 'I'], Seq::empty()), seq!['I', 'I'], Seq::empty()), seq!['I'], Seq::empty()),
        seq![' '],
        Seq::empty(),
    )
}

/// `normalized_name` of a text.
pub fn normalize_industry_name(value: &str) -> (r: String)
    ensures
        r@ == normalized_name(value@),
{
    let v = chars_of(value);
    let t = trim_chars(v.as_slice());
    let e: [char; 0] = [];
    assert(e@ =~= Seq::<char>::empty());
    let a1 = replace_chars(t.as_slice(), &['（'], &['(']);
    let a2 = replace_chars(a1.as_slice(), &['）'], &[')']);
    let b1 = replace_chars(a2.as_slice(), &['Ⅰ'], &e);
    let b2 = replace_chars(b1.as_slice(), &['Ⅱ'], &e);
    let b3 = replace_chars(b2.as_slice(), &['Ⅲ'], &e);
    let c1 = replace_chars(b3.as_slice(), &['I', 'I', 'I'], &e);
    let c2 = replace_chars(c1.as_slice(), &['I', 'I'], &e);
    let c3 = replace_chars(c2.as_slice(), &['I'], &e);
    let d = replace_chars(c3.as_slice(), &[' '], &e);
    proof {
        assert((&['（'])@ =~= seq!['（']);
        assert((&['('])@ =~= seq!['(']);
        assert((&['）'])@ =~= seq!['）']);
        assert((&[')'])@ =~= seq![')']);
        assert((&['Ⅰ'])@ =~= seq!['Ⅰ']);
        assert((&['Ⅱ'])@ =~= seq!['Ⅱ']);
        assert((&['Ⅲ'])@ =~= seq!['Ⅲ']);
        assert((&['I', 'I', 'I'])@ =~= seq!['I', 'I', 'I']);
        assert((&['I', 'I'])@ =~= seq!['I', 'I']);
        assert((&['I'])@ =~= seq!['I']);
        assert((&[' '])@ =~= seq![' ']);
    }
    string_of(d.as_slice())
}

/// Two normalized names match when the second is non-empty and either
/// contains the other.
pub open spec fn names_match(candidate: Seq<char>, name: Seq<char>) -> bool {
    name.len() > 0 && (contains(candidate, name) || contains(name, candidate))
}

/// A candidate industry matches a list of names when, normalized, it is
/// non-empty and matches the normalized form of one of them.
pub open spec fn industry_matches(candidate: Seq<char>, names: Seq<Seq<char>>) -> bool {
    let c = normalized_name(candidate);
    c.len() > 0 && exists|i: int| 0 <= i < names.len() && names_match(c, normalized_name(#[trigger] names[i]))
}

/// A name whose normalized form is non-empty matches a list holding it.
pub proof fn lemma_name_matches_itself(name: Seq<char>, names: Seq<Seq<char>>, i: int)
    requires
        0 <= i < names.len(),
        names[i] == name,
        normalized_name(name).len() > 0,
    ensures
        industry_matches(name, names),
{
    let c = normalized_name(name);
    assert(crate::text::occurs_at(c, c, 0)) by {
        assert(c.subrange(0, c.len() as int) =~= c);
    }
    assert(names_match(c, normalized_name(names[i])));
}

/// `industry_matches` of a candidate and a list of names.
pub fn industry_name_matches(candidate: &str, names: &[String]) -> (r: bool)
    ensures
        r == industry_matches(candidate@, views(names@)),
{
    let c = normalize_industry_name(candidate);
    if c.as_str().is_empty() {
        return false;
    }
    let cv = chars_of(c.as_str());
    let mut i: usize = 0;
    while i < names.len()
        invariant
            i <= names.len(),
            cv@ == normalized_name(candidate@),
            cv@.len() > 0,
            forall|k: int| 0 <= k < i ==> !names_match(cv@, normalized_name(#[trigger] views(names@)[k])),
        decreases names.len() - i,
    {
        let n = normalize_industry_name(names[i].as_str());
        let nv = chars_of(n.as_str());
        assert(views(names@)[i as int] == names@[i as int]@);
        if nv.len() > 0 && (contains_chars(cv.as_slice(), nv.as_slice()) || contains_chars(
            nv.as_slice(),
            cv.as_slice(),
        )) {
            assert(names_match(cv@, normalized_name(views(names@)[i as int])));
            return true;
        }
        i = i + 1;
    }
    false
}

/// Whether a daily-flow row belongs to the industry: its code is the
/// index code or its industry matches one of the names.
pub open spec fn flow_row_matches(
    fields: Seq<String>,
    row: Seq<Json>,
    index_code: Seq<char>,
    names: Seq<Seq<char>>,
) -> bool {
    cell_text(fields, row, "ts_code"@) == index_code || industry_matches(
        cell_text(fields, row, "industry"@),
        names,
    )
}

/// The rows of a daily-flow table that belong to the industry, in order.
pub open spec fn matching_rows(
    fields: Seq<String>,
    rows: Seq<Vec<Json>>,
    index_code: Seq<char>,
    names: Seq<Seq<char>>,
) -> Seq<Vec<Json>>
    decreases rows.len(),
{
    if rows.len() == 0 {
        Seq::empty()
    } else {
        matching_rows(fields, rows.drop_last(), index_code, names) + if flow_row_matches(
            fields,
            rows.last()@,
            index_code,
            names,
        ) {
            seq![rows.last()]
        } else {
            Seq::empty()
        }
    }
}

/// The rows a list of row references points at.
pub open spec fn derefs(v: Seq<&Vec<Json>>) -> Seq<Vec<Json>> {
    v.map_values(|r: &Vec<Json>| *r)
}

/// The rows of `flow` that belong to the industry of `classification`
/// (by its level names) or carry `index_code`.
pub fn matching_flow_rows<'a>(flow: &'a Table, classification: &Table, index_code: &str) -> (r: Vec<
    &'a Vec<Json>,
>)
    ensures
        derefs(r@) == matching_rows(
            flow.fields@,
            flow.rows@,
            index_code@,
            industry_names_spec(*classification, Seq::empty()),
        ),
{
    let names = industry_names(classification, "");
    proof {
        reveal_strlit("");
    }
    let ghost ns = views(names@);
    let mut out: Vec<&'a Vec<Json>> = Vec::new();
    let mut i: usize = 0;
    assert(derefs(out@) =~= Seq::<Vec<Json>>::empty());
    while i < flow.rows.len()
        invariant
            i <= flow.rows.len(),
            ns == views(names@),
            ns == industry_names_spec(*classification, Seq::empty()),
            derefs(out@) == matching_rows(flow.fields@, flow.rows@.take(i as int), index_code@, ns),
        decreases flow.rows.len() - i,
    {
        assert(flow.rows@.take(i + 1).drop_last() =~= flow.rows@.take(i as int));
        let row = &flow.rows[i];
        let code = flow.text(row.as_slice(), "ts_code");
        let industry = flow.text(row.as_slice(), "industry");
        if str_eq(code.as_str(), index_code) || industry_name_matches(industry.as_str(), names.as_slice()) {
            out.push(row);
        }
        assert(derefs(out@) =~= matching_rows(flow.fields@, flow.rows@.take(i + 1), index_code@, ns));
        i = i + 1;
    }
    assert(flow.rows@.take(flow.rows.len() as int) =~= flow.rows@);
    out
}


// ---------------------------------------------------------------------
// Flow evidence
// ---------------------------------------------------------------------
/// One piece of sector capital-flow evidence.
pub struct FlowEvidence {
    pub source: String,
    pub date_or_time: String,
    pub industry: String,
    pub code: String,
    pub price: String,
    pub pct: String,
    pub main_net: String,
    pub lead_stock: String,
    pub note: String,
}

/// The table row of a piece of evidence.
pub open spec fn evidence_row(f: FlowEvidence) -> Seq<char> {
    "| "@ + f.source@ + " | "@ + f.date_or_time@ + " | "@ + f.industry@ + " | "@ + f.code@ + " | "@
        + f.price@ + " | "@ + f.pct@ + " | "@ + f.main_net@ + " | "@ + f.lead_stock@ + " | "@
        + f.note@ + " |\n"@
}

/// The one-line summary of a piece of evidence.
pub open spec fn evidence_piece(f: FlowEvidence) -> Seq<char> {
    f.source@ + " "@ + f.date_or_time@ + " "@ + f.industry@ + " 主力净流入="@ + f.main_net@
        + " 涨跌幅="@ + f.pct@ + "%"@
}

/// The flow line of the summary: the pieces of the evidence at hand
/// joined by `；`, or a warning that no flow source answered.
pub open spec fn flow_summary_text(eastmoney: Option<FlowEvidence>, tushare: Option<FlowEvidence>) -> Seq<char> {
    match (eastmoney, tushare) {
        (Some(e), Some(t)) => evidence_piece(e) + "；"@ + evidence_piece(t),
        (Some(e), None) => evidence_piece(e),
        (None, Some(t)) => evidence_piece(t),
        (None, None) => "资金流来源暂不可用；不要解释为零流入"@,
    }
}

/// The view of an optional borrowed piece of evidence.
pub open spec fn opt_flow(v: Option<&FlowEvidence>) -> Option<FlowEvidence> {
    match v {
        Some(f) => Some(*f),
        None => None,
    }
}

impl FlowEvidence {
    /// The table row of this evidence.
    pub fn render_row(&self) -> (r: String)
        ensures
            r@ == evidence_row(*self),
    {
        let mut out = owned("| ");
        push_str(&mut out, self.source.as_str());
        push_str(&mut out, " | ");
        push_str(&mut out, self.date_or_time.as_str());
        push_str(&mut out, " | ");
        push_str(&mut out, self.industry.as_str());
        push_str(&mut out, " | ");
        push_str(&mut out, self.code.as_str());
        push_str(&mut out, " | ");
        push_str(&mut out, self.price.as_str());
        push_str(&mut out, " | ");
        push_str(&mut out, self.pct.as_str());
        push_str(&mut out, " | ");
        push_str(&mut out, self.main_net.as_str());
        push_str(&mut out, " | ");
        push_str(&mut out, self.lead_stock.as_str());
        push_str(&mut out, " | ");
        push_str(&mut out, self.note.as_str());
        push_str(&mut out, " |\n");
        out
    }
}

/// The one-line summary of a piece of evidence.
pub fn flow_summary_piece(flow: &FlowEvidence) -> (r: String)
    ensures
        r@ == evidence_piece(*flow),
{
    let mut out = flow.source.clone();
    push_str(&mut out, " ");
    push_str(&mut out, flow.date_or_time.as_str());
    push_str(&mut out, " ");
    push_str(&mut out, flow.industry.as_str());
    push_str(&mut out, " 主力净流入=");
    push_str(&mut out, flow.main_net.as_str());
    push_str(&mut out, " 涨跌幅=");
    push_str(&mut out, flow.pct.as_str());
    push_str(&mut out, "%");
    out
}

/// The flow line of the summary.
pub fn flow_summary(eastmoney: Option<&FlowEvidence>, tushare: Option<&FlowEvidence>) -> (r: String)
    ensures
        r@ == flow_summary_text(opt_flow(eastmoney), opt_flow(tushare)),
{
    match (eastmoney, tushare) {
        (Some(e), Some(t)) => {
            let mut out = flow_summary_piece(e);
            push_str(&mut out, "；");
            push_str(&mut out, flow_summary_piece(t).as_str());
            out
        },
        (Some(e), None) => flow_summary_piece(e),
        (None, Some(t)) => flow_summary_piece(t),
        (None, None) => owned("资金流来源暂不可用；不要解释为零流入"),
    }
}

/// The evidence a daily industry-flow row gives.
pub open spec fn tushare_evidence(fields: Seq<String>, row: Seq<Json>) -> (Seq<char>, Seq<char>, Seq<char>, Seq<char>, Seq<char>, Seq<char>, Seq<char>, Seq<char>, Seq<char>) {
    (
        "日频行业资金"@,
        fmt_date(cell_text(fields, row, "trade_date"@)),
        cell_text(fields, row, "industry"@),
        cell_text(fields, row, "ts_code"@),
        cell_text(fields, row, "close"@),
        cell_text(fields, row, "pct_change"@),
        cell_text(fields, row, "net_amount"@),
        cell_text(fields, row, "lead_stock"@),
        "日频；单位沿用结构化来源字段口径"@,
    )
}

/// The fields of a piece of evidence, in order.
pub open spec fn evidence_view(f: FlowEvidence) -> (Seq<char>, Seq<char>, Seq<char>, Seq<char>, Seq<char>, Seq<char>, Seq<char>, Seq<char>, Seq<char>) {
    (f.source@, f.date_or_time@, f.industry@, f.code@, f.price@, f.pct@, f.main_net@, f.lead_stock@, f.note@)
}

/// The daily-flow evidence of a trade date: the first row of `flow` that
/// belongs to the industry, if any.
pub fn tushare_flow_evidence(flow: &Table, classification: &Table, index_code: &str) -> (r: Option<
    FlowEvidence,
>)
    ensures
        ({
            let m = matching_rows(
                flow.fields@,
                flow.rows@,
                index_code@,
                industry_names_spec(*classification, Seq::empty()),
            );
            match r {
                Some(f) => m.len() > 0 && evidence_view(f) == tushare_evidence(flow.fields@, m[0]@),
                None => m.len() == 0,
            }
        }),
{
    let matches = matching_flow_rows(flow, classification, index_code);
    if matches.len() == 0 {
        return None;
    }
    let row = matches[0].as_slice();
    assert(derefs(matches@)[0] == *matches@[0]);
    Some(
        FlowEvidence {
            source: owned("日频行业资金"),
            date_or_time: fmt_date_str(flow.text(row, "trade_date").as_str()),
            industry: flow.text(row, "industry"),
            code: flow.text(row, "ts_code"),
            price: flow.text(row, "close"),
            pct: flow.text(row, "pct_change"),
            main_net: flow.text(row, "net_amount"),
            lead_stock: flow.text(row, "lead_stock"),
            note: owned("日频；单位沿用结构化来源字段口径"),
        },
    )
}

/// One row of the public sector-flow ranking.
pub struct EastmoneyBlockFlowRow {
    pub f2: Option<Json>,
    pub f3: Option<Json>,
    pub f12: Option<Json>,
    pub f14: Option<Json>,
    pub f62: Option<Json>,
    pub f124: Option<Json>,
    pub lead_stock_name: Option<Json>,
    pub lead_stock_code: Option<Json>,
}

/// The evidence a public sector-flow row gives.
pub open spec fn eastmoney_evidence(row: EastmoneyBlockFlowRow) -> (Seq<char>, Seq<char>, Seq<char>, Seq<char>, Seq<char>, Seq<char>, Seq<char>, Seq<char>, Seq<char>) {
    (
        "东方财富盘中板块资金"@,
        epoch_text(row.f124),
        cell_value_text(row.f14),
        cell_value_text(row.f12),
        cell_value_text(row.f2),
        cell_value_text(row.f3),
        cell_value_text(row.f62),
        cell_value_text(row.lead_stock_name) + code_suffix(row.lead_stock_code),
        "盘中/近实时；单位元；公开页面排行口径"@,
    )
}

/// The index of the first ranking row, at `start` or later, whose
/// industry matches one of `names`.
pub open spec fn first_matching_block(rows: Seq<EastmoneyBlockFlowRow>, names: Seq<Seq<char>>, start: int) -> Option<int>
    decreases rows.len() - start,
{
    if start < 0 || start >= rows.len() {
        None
    } else if industry_matches(cell_value_text(rows[start].f14), names) {
        Some(start)
    } else {
        first_matching_block(rows, names, start + 1)
    }
}

/// The public sector-flow evidence: the first ranking row whose industry
/// matches one of `names`, if any.
pub fn eastmoney_flow_evidence(rows: &Vec<EastmoneyBlockFlowRow>, names: &Vec<String>) -> (r: Option<
    FlowEvidence,
>)
    ensures
        match first_matching_block(rows@, views(names@), 0) {
            Some(i) => r matches Some(f) && evidence_view(f) == eastmoney_evidence(rows@[i]),
            None => r is None,
        },
{
    let mut i: usize = 0;
    while i < rows.len()
        invariant
            i <= rows.len(),
            first_matching_block(rows@, views(names@), 0) == first_matching_block(rows@, views(names@), i as int),
        decreases rows.len() - i,
    {
        let row = &rows[i];
        let industry = value_text_opt(row.f14.as_ref());
        if industry_name_matches(industry.as_str(), names.as_slice()) {
            let mut lead = value_text_opt(row.lead_stock_name.as_ref());
            push_str(&mut lead, suffix_code(row.lead_stock_code.as_ref()).as_str());
            return Some(
                FlowEvidence {
                    source: owned("东方财富盘中板块资金"),
                    date_or_time: eastmoney_epoch_text(row.f124.as_ref()),
                    industry,
                    code: value_text_opt(row.f12.as_ref()),
                    price: value_text_opt(row.f2.as_ref()),
                    pct: value_text_opt(row.f3.as_ref()),
                    main_net: value_text_opt(row.f62.as_ref()),
                    lead_stock: lead,
                    note: owned("盘中/近实时；单位元；公开页面排行口径"),
                },
            );
        }
        i = i + 1;
    }
    None
}

/// `{:?}` of an optional integer.
pub open spec fn debug_opt_i64(v: Option<i64>) -> Seq<char> {
    match v {
        Some(n) => "Some("@ + signed_decimal(n as int) + ")"@,
        None => "None"@,
    }
}

/// The error a sector-flow reply stands for unless its `rc` is zero.
pub fn block_flow_rc_error(rc: Option<i64>, message: &Option<String>, msg: &Option<String>) -> (r:
    Option<String>)
    ensures
        match rc {
            Some(0) => r is None,
            _ => r matches Some(e) && e@ == "Eastmoney industry flow returned rc="@ + debug_opt_i64(rc)
                + ": "@ + match (if clean_dash(opt_view(*message)) is Some {
                clean_dash(opt_view(*message))
            } else {
                clean_dash(opt_view(*msg))
            }) {
                Some(m) => m,
                None => "unknown error"@,
            },
        },
{
    if rc == Some(0i64) {
        return None;
    }
    let mut out = owned("Eastmoney industry flow returned rc=");
    match rc {
        Some(n) => {
            push_str(&mut out, "Some(");
            push_str(&mut out, fmt_i64(n).as_str());
            push_str(&mut out, ")");
        },
        None => push_str(&mut out, "None"),
    }
    push_str(&mut out, ": ");
    match message_text(message, msg) {
        Some(m) => push_str(&mut out, m.as_str()),
        None => push_str(&mut out, "unknown error"),
    }
    Some(out)
}


// ---------------------------------------------------------------------
// Arguments
// ---------------------------------------------------------------------
/// The arguments of an industry-context call.
pub struct IndustryArgs {
    pub ts_code: Option<String>,
    pub industry_code: Option<String>,
    pub include_members: bool,
    pub level: String,
}

/// A code argument: trimmed, upper-cased, absent when blank.
pub open spec fn code_arg(v: Option<Seq<char>>) -> Option<Seq<char>> {
    crate::get_a_share_research_sources::upper_arg(v)
}

/// Reads the arguments of an industry-context call.
pub fn parse_industry_args(args: &Json) -> (r: IndustryArgs)
    ensures
        opt_view(r.ts_code) == code_arg(arg_str(*args, "ts_code"@)),
        opt_view(r.industry_code) == code_arg(arg_str(*args, "industry_code"@)),
        r.include_members == match arg_bool(*args, "include_members"@) {
            Some(b) => b,
            None => true,
        },
        r.level@ == upper_case(trim(match arg_str(*args, "level"@) {
            Some(l) => l,
            None => "L2"@,
        })),
{
    let ts_code = crate::get_a_share_research_sources::upper_arg_exec(get_str(args, "ts_code"));
    let industry_code = crate::get_a_share_research_sources::upper_arg_exec(
        get_str(args, "industry_code"),
    );
    let include_members = match get_bool(args, "include_members") {
        Some(b) => b,
        None => true,
    };
    let level_arg = match get_str(args, "level") {
        Some(l) => l,
        None => "L2",
    };
    let t = trim_str(level_arg);
    let level = to_upper(t.as_str());
    IndustryArgs { ts_code, industry_code, include_members, level }
}

/// The reply when no Shenwan classification could be found.
pub const NO_CLASSIFICATION: &'static str = "[get_a_share_industry_context: no Shenwan industry classification found. Treat this as a knowledge gap and research the business model from first principles.]";

// ---------------------------------------------------------------------
// The report
// ---------------------------------------------------------------------
/// One day of the industry index, as text.
pub struct IndexRow {
    pub date: String,
    pub name: String,
    pub close: String,
    pub pct: String,
    pub amount: String,
}

/// What the report is made of.
pub struct IndustryReport {
    pub ts_code: Option<String>,
    pub selection: IndustrySelection,
    pub classification: Table,
    pub index_summary: Option<String>,
    pub index_rows: Vec<IndexRow>,
    pub members: Option<Table>,
    pub eastmoney_flow: Option<FlowEvidence>,
    pub tushare_flow: Option<FlowEvidence>,
}

/// The code and industry lines of the task summary.
pub open spec fn summary_head(r: IndustryReport) -> Seq<char> {
    let sel = r.selection;
    (match r.ts_code {
        Some(c) => "- 标的："@ + c@ + "\n"@,
        None => Seq::empty(),
    }) + "- 主行业："@ + sel.level@ + " "@ + sel.name@ + (if sel.code@.len() == 0 {
        Seq::empty()
    } else {
        " · "@
    }) + sel.code@ + "\n"@
}

/// The index and flow lines of the task summary.
pub open spec fn summary_tail(r: IndustryReport) -> Seq<char> {
    "- 行业指数近期表现："@ + (match r.index_summary {
        Some(x) => x@,
        None => "行业指数日频来源未返回可计算序列"@,
    }) + "\n"@ + "- 资金面："@ + flow_summary_text(r.eastmoney_flow, r.tushare_flow) + "\n"@
}

/// The task summary.
pub open spec fn summary_text(r: IndustryReport) -> Seq<char> {
    "### 任务摘要\n"@ + summary_head(r) + summary_tail(r)
}

/// A classification row of the report, when the level has a code or name.
pub open spec fn class_line(level: Seq<char>, code: Seq<char>, name: Seq<char>) -> Seq<char> {
    if code.len() == 0 && name.len() == 0 {
        Seq::empty()
    } else {
        "| "@ + level + " | "@ + code + " | "@ + name + " |\n"@
    }
}

/// The classification section.
pub open spec fn classification_text(r: IndustryReport) -> Seq<char> {
    let t = r.classification;
    let sel = r.selection;
    "\n### 申万分类\n"@ + "| 层级 | 代码 | 名称 |\n"@ + "|---|---|---|\n"@ + if t.rows@.len() == 0 {
        "| "@ + sel.level@ + " | "@ + sel.code@ + " | "@ + sel.name@ + " |\n"@
    } else {
        let row = t.rows@[0]@;
        class_line("L1"@, cell_text(t.fields@, row, "l1_code"@), cell_text(t.fields@, row, "l1_name"@))
            + class_line("L2"@, cell_text(t.fields@, row, "l2_code"@), cell_text(t.fields@, row, "l2_name"@))
            + class_line("L3"@, cell_text(t.fields@, row, "l3_code"@), cell_text(t.fields@, row, "l3_name"@))
    }
}

/// The table line of one index day.
pub open spec fn index_line(row: IndexRow) -> Seq<char> {
    "| "@ + row.date@ + " | "@ + row.name@ + " | "@ + row.close@ + " | "@ + row.pct@ + " | "@
        + row.amount@ + " |\n"@
}

/// The table lines of index days, in order.
pub open spec fn index_lines(rows: Seq<IndexRow>) -> Seq<char>
    decreases rows.len(),
{
    if rows.len() == 0 {
        Seq::empty()
    } else {
        index_lines(rows.drop_last()) + index_line(rows.last())
    }
}

/// The last `n` items of a list (all of it when it is shorter).
pub open spec fn last_n<A>(s: Seq<A>, n: int) -> Seq<A> {
    if s.len() <= n {
        s
    } else {
        s.skip(s.len() - n)
    }
}

/// The index section: the last eight days, oldest first.
pub open spec fn index_text(rows: Seq<IndexRow>) -> Seq<char> {
    "\n### 行业指数近期表现\n"@ + "| 日期 | 指数 | 收盘 | 涨跌幅% | 成交额 |\n"@ + "|---|---|---:|---:|---:|\n"@
        + (if rows.len() == 0 {
        "| 无返回记录 | - | - | - | - |\n"@
    } else {
        index_lines(last_n(rows, 8))
    }) + "_来源: 配置的行业指数日频来源；指数表现用于行业上下文，不等同于个股收益。_\n"@
}

/// The table lines of peer members, in order.
pub open spec fn member_lines(fields: Seq<String>, rows: Seq<Vec<Json>>) -> Seq<char>
    decreases rows.len(),
{
    if rows.len() == 0 {
        Seq::empty()
    } else {
        member_lines(fields, rows.drop_last()) + "| "@ + cell_text(fields, rows.last()@, "con_code"@)
            + " | "@ + cell_text(fields, rows.last()@, "con_name"@) + " |\n"@
    }
}

/// The peer section: the first twelve members, when members were asked for.
pub open spec fn members_text(members: Option<Table>) -> Seq<char> {
    match members {
        None => Seq::empty(),
        Some(m) => "\n### 同业样本\n"@ + "| 代码 | 名称 |\n"@ + "|---|---|\n"@ + if m.rows@.len() == 0 {
            "| 无返回记录 | - |\n"@
        } else {
            member_lines(m.fields@, if m.rows@.len() <= 12 { m.rows@ } else { m.rows@.take(12) })
        },
    }
}

/// The line shown when no flow source answered.
pub open spec fn no_flow_line() -> Seq<char> {
    "| 来源不可用 | - | - | - | - | - | - | - | 行业资金流来源暂不可用；这不是资金流为零。继续使用行业指数、同业样本、成交额和后续结构化资金工具交叉验证。 |\n"@
}

/// The flow section.
pub open spec fn flow_text(eastmoney: Option<FlowEvidence>, tushare: Option<FlowEvidence>) -> Seq<char> {
    "\n### 行业资金面\n"@ + "| 来源 | 时间/日期 | 行业 | 代码 | 点位/收盘 | 涨跌幅% | 主力净流入 | 领涨股 | 说明 |\n"@
        + "|---|---|---|---|---:|---:|---:|---|---|\n"@ + (match eastmoney {
        Some(f) => evidence_row(f),
        None => Seq::empty(),
    }) + (match tushare {
        Some(f) => evidence_row(f),
        None => Seq::empty(),
    }) + (if eastmoney is None && tushare is None {
        no_flow_line()
    } else {
        Seq::empty()
    })
}

/// The closing caveat.
pub open spec fn caveat_text() -> Seq<char> {
    "\n_Caveat: 行业分类和板块资金是 working model 的上下文，不是买卖信号。若 corpus 没有该产业链知识，应继续调研产业链、需求、渠道、政策和竞争格局。_"@
}

/// The whole report.
pub open spec fn industry_report_text(r: IndustryReport) -> Seq<char> {
    let subject = match r.ts_code {
        Some(c) => c@,
        None => r.selection.code@,
    };
    "## A股行业上下文 · "@ + subject + "\n\n"@ + summary_text(r) + classification_text(r) + index_text(
        r.index_rows@,
    ) + members_text(r.members) + flow_text(r.eastmoney_flow, r.tushare_flow) + caveat_text()
}

/// Appends one classification line.
fn push_class_line(out: &mut String, t: &Table, row: &[Json], level: &str, code_field: &str, name_field: &str)
    ensures
        final(out)@ == old(out)@ + class_line(level@, cell_text(t.fields@, row@, code_field@), cell_text(
            t.fields@,
            row@,
            name_field@,
        )),
{
    let code = t.text(row, code_field);
    let name = t.text(row, name_field);
    if !code.as_str().is_empty() || !name.as_str().is_empty() {
        push_str(out, "| ");
        push_str(out, level);
        push_str(out, " | ");
        push_str(out, code.as_str());
        push_str(out, " | ");
        push_str(out, name.as_str());
        push_str(out, " |\n");
    }
}

/// Appends the code and industry lines of the summary.
fn push_summary_head(out: &mut String, r: &IndustryReport)
    ensures
        final(out)@ == old(out)@ + summary_head(*r),
{
    let ghost o = out@;
    match &r.ts_code {
        Some(c) => {
            push_str(out, "- 标的：");
            push_str(out, c.as_str());
            push_str(out, "\n");
        },
        None => {},
    }
    let ghost mid = out@;
    let sel = &r.selection;
    push_str(out, "- 主行业：");
    push_str(out, sel.level.as_str());
    push_str(out, " ");
    push_str(out, sel.name.as_str());
    if !sel.code.as_str().is_empty() {
        push_str(out, " · ");
    }
    push_str(out, sel.code.as_str());
    push_str(out, "\n");
    assert(out@ =~= o + summary_head(*r));
}

/// Appends the index and flow lines of the summary.
fn push_summary_tail(out: &mut String, r: &IndustryReport)
    ensures
        final(out)@ == old(out)@ + summary_tail(*r),
{
    push_str(out, "- 行业指数近期表现：");
    match &r.index_summary {
        Some(x) => push_str(out, x.as_str()),
        None => push_str(out, "行业指数日频来源未返回可计算序列"),
    }
    push_str(out, "\n");
    push_str(out, "- 资金面：");
    push_str(out, flow_summary(r.eastmoney_flow.as_ref(), r.tushare_flow.as_ref()).as_str());
    push_str(out, "\n");
}

/// Appends the summary.
fn push_summary(out: &mut String, r: &IndustryReport)
    ensures
        final(out)@ == old(out)@ + summary_text(*r),
{
    push_str(out, "### 任务摘要\n");
    push_summary_head(out, r);
    push_summary_tail(out, r);
}

/// Appends the classification section.
#[verifier::spinoff_prover]
#[verifier::rlimit(40)]
fn push_classification(out: &mut String, r: &IndustryReport)
    ensures
        final(out)@ == old(out)@ + classification_text(*r),
{
    push_str(out, "\n### 申万分类\n");
    push_str(out, "| 层级 | 代码 | 名称 |\n");
    push_str(out, "|---|---|---|\n");
    let t = &r.classification;
    if t.rows.len() == 0 {
        let sel = &r.selection;
        push_str(out, "| ");
        push_str(out, sel.level.as_str());
        push_str(out, " | ");
        push_str(out, sel.code.as_str());
        push_str(out, " | ");
        push_str(out, sel.name.as_str());
        push_str(out, " |\n");
    } else {
        push_class_rows(out, t);
    }
}

/// Appends the classification lines of the first row of a non-empty table.
fn push_class_rows(out: &mut String, t: &Table)
    requires
        t.rows@.len() > 0,
    ensures
        ({
            let row = t.rows@[0]@;
            final(out)@ == old(out)@ + class_line("L1"@, cell_text(t.fields@, row, "l1_code"@), cell_text(
                t.fields@,
                row,
                "l1_name"@,
            )) + class_line("L2"@, cell_text(t.fields@, row, "l2_code"@), cell_text(t.fields@, row, "l2_name"@))
                + class_line("L3"@, cell_text(t.fields@, row, "l3_code"@), cell_text(t.fields@, row, "l3_name"@))
        }),
{
    let row = t.rows[0].as_slice();
    push_class_line(out, t, row, "L1", "l1_code", "l1_name");
    push_class_line(out, t, row, "L2", "l2_code", "l2_name");
    push_class_line(out, t, row, "L3", "l3_code", "l3_name");
}

/// Appends the index section.
fn push_index(out: &mut String, rows: &Vec<IndexRow>)
    ensures
        final(out)@ == old(out)@ + index_text(rows@),
{
    push_str(out, "\n### 行业指数近期表现\n");
    push_str(out, "| 日期 | 指数 | 收盘 | 涨跌幅% | 成交额 |\n");
    push_str(out, "|---|---|---:|---:|---:|\n");
    if rows.len() == 0 {
        push_str(out, "| 无返回记录 | - | - | - | - |\n");
    } else {
        let start: usize = if rows.len() <= 8 {
            0
        } else {
            rows.len() - 8
        };
        let ghost tail = last_n(rows@, 8);
        assert(tail =~= rows@.subrange(start as int, rows@.len() as int));
        let ghost head = out@;
        let mut i: usize = start;
        while i < rows.len()
            invariant
                start <= i <= rows.len(),
                tail == rows@.subrange(start as int, rows@.len() as int),
                out@ == head + index_lines(rows@.subrange(start as int, i as int)),
            decreases rows.len() - i,
        {
            assert(rows@.subrange(start as int, i + 1).drop_last() =~= rows@.subrange(start as int, i as int));
            let row = &rows[i];
            push_str(out, "| ");
            push_str(out, row.date.as_str());
            push_str(out, " | ");
            push_str(out, row.name.as_str());
            push_str(out, " | ");
            push_str(out, row.close.as_str());
            push_str(out, " | ");
            push_str(out, row.pct.as_str());
            push_str(out, " | ");
            push_str(out, row.amount.as_str());
            push_str(out, " |\n");
            i = i + 1;
        }
    }
    push_str(out, "_来源: 配置的行业指数日频来源；指数表现用于行业上下文，不等同于个股收益。_\n");
}

/// Appends the peer section.
fn push_members(out: &mut String, members: &Option<Table>)
    ensures
        final(out)@ == old(out)@ + members_text(*members),
{
    match members {
        None => {},
        Some(m) => {
            push_str(out, "\n### 同业样本\n");
            push_str(out, "| 代码 | 名称 |\n");
            push_str(out, "|---|---|\n");
            if m.rows.len() == 0 {
                push_str(out, "| 无返回记录 | - |\n");
            } else {
                let n: usize = if m.rows.len() <= 12 {
                    m.rows.len()
                } else {
                    12
                };
                let ghost firsts = if m.rows@.len() <= 12 { m.rows@ } else { m.rows@.take(12) };
                assert(firsts =~= m.rows@.take(n as int));
                let ghost head = out@;
                let mut i: usize = 0;
                while i < n
                    invariant
                        i <= n,
                        n <= m.rows@.len(),
                        firsts == m.rows@.take(n as int),
                        out@ == head + member_lines(m.fields@, m.rows@.take(i as int)),
                    decreases n - i,
                {
                    assert(m.rows@.take(i + 1).drop_last() =~= m.rows@.take(i as int));
                    let row = m.rows[i].as_slice();
                    push_str(out, "| ");
                    push_str(out, m.text(row, "con_code").as_str());
                    push_str(out, " | ");
                    push_str(out, m.text(row, "con_name").as_str());
                    push_str(out, " |\n");
                    i = i + 1;
                }
            }
        },
    }
}

/// Appends the flow section.
fn push_flows(out: &mut String, eastmoney: &Option<FlowEvidence>, tushare: &Option<FlowEvidence>)
    ensures
        final(out)@ == old(out)@ + flow_text(*eastmoney, *tushare),
{
    push_str(out, "\n### 行业资金面\n");
    push_str(out, "| 来源 | 时间/日期 | 行业 | 代码 | 点位/收盘 | 涨跌幅% | 主力净流入 | 领涨股 | 说明 |\n");
    push_str(out, "|---|---|---|---|---:|---:|---:|---|---|\n");
    let mut flow_rows: usize = 0;
    match eastmoney {
        Some(f) => {
            push_str(out, f.render_row().as_str());
            flow_rows = flow_rows + 1;
        },
        None => {},
    }
    match tushare {
        Some(f) => {
            push_str(out, f.render_row().as_str());
            flow_rows = flow_rows + 1;
        },
        None => {},
    }
    if flow_rows == 0 {
        push_str(
            out,
            "| 来源不可用 | - | - | - | - | - | - | - | 行业资金流来源暂不可用；这不是资金流为零。继续使用行业指数、同业样本、成交额和后续结构化资金工具交叉验证。 |\n",
        );
    }
}

/// The whole report.
pub fn render_industry_report(r: &IndustryReport) -> (out: String)
    ensures
        out@ == industry_report_text(*r),
{
    let mut out = owned("## A股行业上下文 · ");
    match &r.ts_code {
        Some(c) => push_str(&mut out, c.as_str()),
        None => push_str(&mut out, r.selection.code.as_str()),
    }
    push_str(&mut out, "\n\n");
    push_summary(&mut out, r);
    push_classification(&mut out, r);
    push_index(&mut out, &r.index_rows);
    push_members(&mut out, &r.members);
    push_flows(&mut out, &r.eastmoney_flow, &r.tushare_flow);
    push_str(
        &mut out,
        "\n_Caveat: 行业分类和板块资金是 working model 的上下文，不是买卖信号。若 corpus 没有该产业链知识，应继续调研产业链、需求、渠道、政策和竞争格局。_",
    );
    out
}


// ---------------------------------------------------------------------
// Trading-day candidates
// ---------------------------------------------------------------------
/// The calendar day before `(year, month, day)`, as `chrono` counts;
/// nothing where the date is invalid or has no predecessor.
pub uninterp spec fn day_before(d: (i32, u32, u32)) -> Option<(i32, u32, u32)>;

/// The weekday of `(year, month, day)` as `chrono` gives it, counted from
/// Monday as 0; nothing where the date is invalid.
pub uninterp spec fn weekday_index(d: (i32, u32, u32)) -> Option<u32>;

/// `NaiveDate::from_ymd_opt` then `pred_opt`; the result is `day_before`
/// of the date.
#[verifier::external_body]
fn previous_day(d: (i32, u32, u32)) -> (r: Option<(i32, u32, u32)>)
    ensures
        r == day_before(d),
{
    chrono::NaiveDate::from_ymd_opt(d.0, d.1, d.2)?.pred_opt().map(
        |p| (chrono::Datelike::year(&p), chrono::Datelike::month(&p), chrono::Datelike::day(&p)),
    )
}

/// `NaiveDate::from_ymd_opt` then `weekday().num_days_from_monday()`; the
/// result is `weekday_index` of the date.
#[verifier::external_body]
fn weekday_of(d: (i32, u32, u32)) -> (r: Option<u32>)
    ensures
        r == weekday_index(d),
{
    chrono::NaiveDate::from_ymd_opt(d.0, d.1, d.2).map(|x| chrono::Datelike::weekday(&x).num_days_from_monday())
}

/// `n` in decimal, zero-padded on the left to `width` digits.
pub open spec fn padded(n: nat, width: nat) -> Seq<char>
    decreases width,
{
    if decimal(n).len() >= width || width == 0 {
        decimal(n)
    } else {
        seq!['0'] + padded(n, (width - 1) as nat)
    }
}

/// A date as `{:04}{:02}{:02}` prints it: the year zero-padded to four
/// places (the sign counting as one), month and day to two.
pub open spec fn compact_date(d: (i32, u32, u32)) -> Seq<char> {
    (if d.0 < 0 {
        seq!['-'] + padded((-(d.0 as int)) as nat, 3)
    } else {
        padded(d.0 as nat, 4)
    }) + padded(d.1 as nat, 2) + padded(d.2 as nat, 2)
}

/// Weekdays from `d` backwards, newest first, until `limit` are found,
/// `steps` days are looked at, or the calendar ends.
pub open spec fn weekdays_back(d: (i32, u32, u32), limit: nat, steps: nat) -> Seq<Seq<char>>
    decreases steps,
{
    if limit == 0 || steps == 0 {
        Seq::empty()
    } else {
        let weekend = weekday_index(d) == Some(5u32) || weekday_index(d) == Some(6u32);
        let head: Seq<Seq<char>> = if weekend {
            Seq::empty()
        } else {
            seq![compact_date(d)]
        };
        let left: nat = if weekend {
            limit
        } else {
            (limit - 1) as nat
        };
        head + match day_before(d) {
            Some(p) => weekdays_back(p, left, (steps - 1) as nat),
            None => Seq::empty(),
        }
    }
}

/// `padded` as a string.
fn padded_text(n: u64, width: u64) -> (r: String)
    ensures
        r@ == padded(n as nat, width as nat),
    decreases width,
{
    let digits = crate::text::fmt_u64(n);
    let dv = chars_of(digits.as_str());
    if (dv.len() as u64) >= width || width == 0 {
        digits
    } else {
        let rest = padded_text(n, width - 1);
        let mut out = owned("0");
        push_str(&mut out, rest.as_str());
        proof {
            reveal_strlit("0");
        }
        out
    }
}

/// `compact_date` as a string.
pub fn compact_date_text(d: (i32, u32, u32)) -> (r: String)
    ensures
        r@ == compact_date(d),
{
    let mut out = if d.0 < 0 {
        let mag: u64 = if d.0 == i32::MIN {
            2147483648u64
        } else {
            (-d.0) as u64
        };
        let mut y = owned("-");
        proof {
            reveal_strlit("-");
        }
        push_str(&mut y, padded_text(mag, 3).as_str());
        y
    } else {
        padded_text(d.0 as u64, 4)
    };
    push_str(&mut out, padded_text(d.1 as u64, 2).as_str());
    push_str(&mut out, padded_text(d.2 as u64, 2).as_str());
    out
}

/// The most recent `limit` weekdays up to `today`, newest first, as
/// `YYYYMMDD`: the dates a daily source is tried on. At most `2 * limit +
/// 7` days are looked at, more than `limit` weekdays ever need.
pub fn recent_trade_date_candidates(today: (i32, u32, u32), limit: usize) -> (r: Vec<String>)
    requires
        2 * limit + 7 <= usize::MAX,
    ensures
        views(r@) == weekdays_back(today, limit as nat, (2 * limit + 7) as nat),
{
    let mut out: Vec<String> = Vec::new();
    let mut day = today;
    let mut steps: usize = 2 * limit + 7;
    let mut left: usize = limit;
    loop
        invariant
            views(out@) + weekdays_back(day, left as nat, steps as nat) == weekdays_back(
                today,
                limit as nat,
                (2 * limit + 7) as nat,
            ),
        decreases steps,
    {
        if left == 0 || steps == 0 {
            assert(weekdays_back(day, left as nat, steps as nat) =~= Seq::<Seq<char>>::empty());
            assert(views(out@) =~= views(out@) + Seq::<Seq<char>>::empty());
            return out;
        }
        let wd = weekday_of(day);
        let weekend = match wd {
            Some(w) => w == 5 || w == 6,
            None => false,
        };
        let ghost before = views(out@);
        let ghost rest = weekdays_back(day, left as nat, steps as nat);
        if !weekend {
            out.push(compact_date_text(day));
            left = left - 1;
        }
        steps = steps - 1;
        match previous_day(day) {
            Some(p) => {
                assert(views(out@) + weekdays_back(p, left as nat, steps as nat) =~= before + rest);
                day = p;
            },
            None => {
                assert(views(out@) =~= before + rest);
                return out;
            },
        }
    }
}

} // verus!
