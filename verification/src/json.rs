//! A JSON value model for tool arguments and tabular vendor payloads.
//!
//! `Json` holds, as plain values, everything the tools read from a JSON
//! document. A number carries the text that its decoder printed for it
//! and, where it is an integer in range, its integer value.
use vstd::prelude::*;

use crate::text::{chars_eq, chars_of, digit_char, extend_chars, owned, string_of};

verus! {

/// A JSON number: its printed text and its integer readings.
pub struct JsonNumber {
    /// The number as printed (`Display`), e.g. `5`, `-3`, `7.2`, `100000000.0`.
    pub text: String,
    /// The value when it is a non-negative integer that fits in `u64`.
    pub as_u64: Option<u64>,
    /// The value when it is an integer that fits in `i64`.
    pub as_i64: Option<i64>,
    /// Where `as_i64` is none: its floating-point reading cast to `i64`
    /// (`as_f64() as i64`, truncated toward zero and saturating).
    pub truncated: Option<i64>,
}

/// A JSON value.
pub enum Json {
    Null,
    Bool(bool),
    Number(JsonNumber),
    String(String),
    Array(Vec<Json>),
    /// Members in document order; keys are unique in decoded documents.
    Object(Vec<(String, Json)>),
}

/// Index of the first member of `members`, at `start` or later, whose
/// key is `key`.
pub open spec fn find_member(members: Seq<(String, Json)>, key: Seq<char>, start: int) -> Option<int>
    decreases members.len() - start,
{
    if start < 0 || start >= members.len() {
        None
    } else if members[start].0@ == key {
        Some(start)
    } else {
        find_member(members, key, start + 1)
    }
}

impl Json {
    /// `value.get(key)`: the member `key` of an object, else nothing.
    pub open spec fn get_spec(self, key: Seq<char>) -> Option<Json> {
        match self {
            Json::Object(members) => match find_member(members@, key, 0) {
                Some(i) => Some(members@[i].1),
                None => None,
            },
            _ => None,
        }
    }

    /// `value.as_str()`.
    pub open spec fn str_spec(self) -> Option<Seq<char>> {
        match self {
            Json::String(s) => Some(s@),
            _ => None,
        }
    }

    /// `value.as_u64()`.
    pub open spec fn u64_spec(self) -> Option<u64> {
        match self {
            Json::Number(n) => n.as_u64,
            _ => None,
        }
    }

    /// `value.as_i64()`.
    pub open spec fn i64_spec(self) -> Option<i64> {
        match self {
            Json::Number(n) => n.as_i64,
            _ => None,
        }
    }

    /// `value.as_bool()`.
    pub open spec fn bool_spec(self) -> Option<bool> {
        match self {
            Json::Bool(b) => Some(b),
            _ => None,
        }
    }

    /// `value.as_array()`.
    pub open spec fn array_spec(self) -> Option<Seq<Json>> {
        match self {
            Json::Array(items) => Some(items@),
            _ => None,
        }
    }

    /// `value.get(key)`.
    pub fn get(&self, key: &str) -> (r: Option<&Json>)
        ensures
            r matches Some(v) ==> self.get_spec(key@) == Some(*v),
            r is None ==> self.get_spec(key@) is None,
    {
        match self {
            Json::Object(members) => {
                let k = chars_of(key);
                let mut i: usize = 0;
                while i < members.len()
                    invariant
                        i <= members.len(),
                        k@ == key@,
                        *self is Object,
                        self->Object_0 == *members,
                        find_member(members@, key@, 0) == find_member(members@, key@, i as int),
                    decreases members.len() - i,
                {
                    let mk = chars_of(members[i].0.as_str());
                    if chars_eq(mk.as_slice(), k.as_slice()) {
                        assert(members@[i as int].0@ == key@);
                        assert(find_member(members@, key@, i as int) == Some(i as int));
                        return Some(&members[i].1);
                    }
                    i = i + 1;
                }
                None
            },
            _ => None,
        }
    }

    /// `value.as_str()`.
    pub fn as_str(&self) -> (r: Option<&str>)
        ensures
            r matches Some(s) ==> self.str_spec() == Some(s@),
            r is None ==> self.str_spec() is None,
    {
        match self {
            Json::String(s) => Some(s.as_str()),
            _ => None,
        }
    }

    /// `value.as_u64()`.
    pub fn as_u64(&self) -> (r: Option<u64>)
        ensures
            r == self.u64_spec(),
    {
        match self {
            Json::Number(n) => n.as_u64,
            _ => None,
        }
    }

    /// `value.as_i64()`.
    pub fn as_i64(&self) -> (r: Option<i64>)
        ensures
            r == self.i64_spec(),
    {
        match self {
            Json::Number(n) => n.as_i64,
            _ => None,
        }
    }

    /// `value.as_bool()`.
    pub fn as_bool(&self) -> (r: Option<bool>)
        ensures
            r == self.bool_spec(),
    {
        match self {
            Json::Bool(b) => Some(*b),
            _ => None,
        }
    }

    /// `value.as_array()`.
    pub fn as_array(&self) -> (r: Option<&Vec<Json>>)
        ensures
            r matches Some(v) ==> self.array_spec() == Some(v@),
            r is None ==> self.array_spec() is None,
    {
        match self {
            Json::Array(items) => Some(items),
            _ => None,
        }
    }

    /// Whether the value is an object.
    pub fn is_object(&self) -> (r: bool)
        ensures
            r == (self is Object),
    {
        match self {
            Json::Object(_) => true,
            _ => false,
        }
    }

    /// A string value.
    pub fn from_str_value(s: &str) -> (r: Json)
        ensures
            r == Json::String(r->String_0),
            r->String_0@ == s@,
    {
        Json::String(owned(s))
    }
}

/// The string argument `key` of an object, if it is a string.
pub open spec fn arg_str(args: Json, key: Seq<char>) -> Option<Seq<char>> {
    match args.get_spec(key) {
        Some(v) => v.str_spec(),
        None => None,
    }
}

/// The non-negative integer argument `key` of an object.
pub open spec fn arg_u64(args: Json, key: Seq<char>) -> Option<u64> {
    match args.get_spec(key) {
        Some(v) => v.u64_spec(),
        None => None,
    }
}

/// The integer argument `key` of an object.
pub open spec fn arg_i64(args: Json, key: Seq<char>) -> Option<i64> {
    match args.get_spec(key) {
        Some(v) => v.i64_spec(),
        None => None,
    }
}

/// The boolean argument `key` of an object.
pub open spec fn arg_bool(args: Json, key: Seq<char>) -> Option<bool> {
    match args.get_spec(key) {
        Some(v) => v.bool_spec(),
        None => None,
    }
}

/// The array argument `key` of an object.
pub open spec fn arg_array(args: Json, key: Seq<char>) -> Option<Seq<Json>> {
    match args.get_spec(key) {
        Some(v) => v.array_spec(),
        None => None,
    }
}

/// `args.get(key).and_then(|v| v.as_str())`.
pub fn get_str<'a>(args: &'a Json, key: &str) -> (r: Option<&'a str>)
    ensures
        match r {
            Some(s) => arg_str(*args, key@) == Some(s@),
            None => arg_str(*args, key@) is None,
        },
{
    match args.get(key) {
        Some(v) => v.as_str(),
        None => None,
    }
}

/// `args.get(key).and_then(|v| v.as_u64())`.
pub fn get_u64(args: &Json, key: &str) -> (r: Option<u64>)
    ensures
        r == arg_u64(*args, key@),
{
    match args.get(key) {
        Some(v) => v.as_u64(),
        None => None,
    }
}

/// `args.get(key).and_then(|v| v.as_i64())`.
pub fn get_i64(args: &Json, key: &str) -> (r: Option<i64>)
    ensures
        r == arg_i64(*args, key@),
{
    match args.get(key) {
        Some(v) => v.as_i64(),
        None => None,
    }
}

/// `args.get(key).and_then(|v| v.as_bool())`.
pub fn get_bool(args: &Json, key: &str) -> (r: Option<bool>)
    ensures
        r == arg_bool(*args, key@),
{
    match args.get(key) {
        Some(v) => v.as_bool(),
        None => None,
    }
}

/// `args.get(key).and_then(|v| v.as_array())`.
pub fn get_array<'a>(args: &'a Json, key: &str) -> (r: Option<&'a Vec<Json>>)
    ensures
        match r {
            Some(v) => arg_array(*args, key@) == Some(v@),
            None => arg_array(*args, key@) is None,
        },
{
    match args.get(key) {
        Some(v) => v.as_array(),
        None => None,
    }
}

/// The string items of a list, in order, skipping items of other kinds.
pub open spec fn str_items(items: Seq<Json>) -> Seq<Seq<char>>
    decreases items.len(),
{
    if items.len() == 0 {
        Seq::empty()
    } else {
        str_items(items.drop_last()) + match items.last().str_spec() {
            Some(s) => seq![s],
            None => Seq::empty(),
        }
    }
}

/// `str_items` of a list, as owned strings.
pub fn str_items_exec(items: &Vec<Json>) -> (r: Vec<String>)
    ensures
        crate::text::views(r@) == str_items(items@),
{
    let mut out: Vec<String> = Vec::new();
    let mut i: usize = 0;
    while i < items.len()
        invariant
            i <= items.len(),
            crate::text::views(out@) == str_items(items@.take(i as int)),
        decreases items.len() - i,
    {
        assert(items@.take(i + 1).drop_last() =~= items@.take(i as int));
        let ghost before = crate::text::views(out@);
        match items[i].as_str() {
            Some(s) => {
                out.push(owned(s));
                assert(crate::text::views(out@) =~= before + seq![s@]);
            },
            None => {
                assert(crate::text::views(out@) =~= before + Seq::<Seq<char>>::empty());
            },
        }
        i = i + 1;
    }
    assert(items@.take(items.len() as int) =~= items@);
    out
}

/// A JSON integer.
pub fn json_i64(n: i64) -> (j: Json)
    ensures
        j matches Json::Number(num) && num.text@ == crate::text::signed_decimal(n as int)
            && num.as_i64 == Some(n) && num.as_u64 == (if n >= 0 {
            Some(n as u64)
        } else {
            None
        }),
{
    let as_u64 = if n >= 0 {
        Some(n as u64)
    } else {
        None
    };
    Json::Number(JsonNumber { text: crate::text::fmt_i64(n), as_u64, as_i64: Some(n), truncated: None })
}

/// A JSON non-negative integer.
pub fn json_u64(n: u64) -> (j: Json)
    ensures
        j matches Json::Number(num) && num.text@ == crate::text::decimal(n as nat) && num.as_u64
            == Some(n) && num.as_i64 == (if n <= i64::MAX as u64 {
            Some(n as i64)
        } else {
            None
        }),
{
    let small = n <= 9223372036854775807u64;
    let as_i64 = if small {
        Some(n as i64)
    } else {
        None
    };
    let truncated = if small {
        None
    } else {
        Some(i64::MAX)
    };
    Json::Number(JsonNumber { text: crate::text::fmt_u64(n), as_u64: Some(n), as_i64, truncated })
}

/// A JSON string.
pub fn json_str(s: &str) -> (j: Json)
    ensures
        j matches Json::String(t) && t@ == s@,
{
    Json::String(owned(s))
}

// ---------------------------------------------------------------------
// Text form
// ---------------------------------------------------------------------
/// Lower-case hexadecimal digit for `d < 16`.
pub open spec fn hex_digit(d: nat) -> char {
    if d < 10 {
        digit_char(d)
    } else if d == 10 {
        'a'
    } else if d == 11 {
        'b'
    } else if d == 12 {
        'c'
    } else if d == 13 {
        'd'
    } else if d == 14 {
        'e'
    } else {
        'f'
    }
}

/// How one character is written inside a JSON string literal.
pub open spec fn escape_char(c: char) -> Seq<char> {
    if c == '"' {
        seq!['\\', '"']
    } else if c == '\\' {
        seq!['\\', '\\']
    } else if c == '\u{8}' {
        seq!['\\', 'b']
    } else if c == '\u{c}' {
        seq!['\\', 'f']
    } else if c == '\n' {
        seq!['\\', 'n']
    } else if c == '\r' {
        seq!['\\', 'r']
    } else if c == '\t' {
        seq!['\\', 't']
    } else if (c as u32) < 0x20 {
        seq!['\\', 'u', '0', '0', hex_digit(((c as u32) / 16) as nat), hex_digit(((c as u32) % 16) as nat)]
    } else {
        seq![c]
    }
}

/// The escaped body of a JSON string literal.
pub open spec fn escape(s: Seq<char>) -> Seq<char>
    decreases s.len(),
{
    if s.len() == 0 {
        Seq::empty()
    } else {
        escape(s.drop_last()) + escape_char(s.last())
    }
}

/// A JSON string literal for `s`.
pub open spec fn quoted(s: Seq<char>) -> Seq<char> {
    seq!['"'] + escape(s) + seq!['"']
}

/// The compact text of a JSON value, as `serde_json` prints it.
pub open spec fn json_text(j: Json) -> Seq<char>
    decreases j, 0nat,
{
    match j {
        Json::Null => seq!['n', 'u', 'l', 'l'],
        Json::Bool(b) => if b {
            seq!['t', 'r', 'u', 'e']
        } else {
            seq!['f', 'a', 'l', 's', 'e']
        },
        Json::Number(n) => n.text@,
        Json::String(s) => quoted(s@),
        Json::Array(items) => seq!['['] + items_text(items@) + seq![']'],
        Json::Object(members) => seq!['{'] + members_text(members@) + seq!['}'],
    }
}

/// The comma-separated texts of `items`.
pub open spec fn items_text(items: Seq<Json>) -> Seq<char>
    decreases items, 1nat,
{
    if items.len() == 0 {
        Seq::empty()
    } else if items.len() == 1 {
        json_text(items[0])
    } else {
        items_text(items.subrange(0, items.len() - 1)) + seq![','] + json_text(
            items[items.len() - 1],
        )
    }
}

/// The comma-separated `"key":value` texts of `members`.
pub open spec fn members_text(members: Seq<(String, Json)>) -> Seq<char>
    decreases members, 1nat,
{
    if members.len() == 0 {
        Seq::empty()
    } else if members.len() == 1 {
        quoted(members[0].0@) + seq![':'] + json_text(members[0].1)
    } else {
        members_text(members.subrange(0, members.len() - 1)) + seq![','] + quoted(
            members[members.len() - 1].0@,
        ) + seq![':'] + json_text(members[members.len() - 1].1)
    }
}

/// Writes the escaped form of `c`.
fn write_escaped_char(out: &mut Vec<char>, c: char)
    ensures
        final(out)@ == old(out)@ + escape_char(c),
{
    let ghost o = old(out)@;
    if c == '"' {
        out.push('\\');
        out.push('"');
    } else if c == '\\' {
        out.push('\\');
        out.push('\\');
    } else if c == '\u{8}' {
        out.push('\\');
        out.push('b');
    } else if c == '\u{c}' {
        out.push('\\');
        out.push('f');
    } else if c == '\n' {
        out.push('\\');
        out.push('n');
    } else if c == '\r' {
        out.push('\\');
        out.push('r');
    } else if c == '\t' {
        out.push('\\');
        out.push('t');
    } else if (c as u32) < 0x20 {
        let code = c as u32;
        out.push('\\');
        out.push('u');
        out.push('0');
        out.push('0');
        out.push(hex_of(code / 16));
        out.push(hex_of(code % 16));
    } else {
        out.push(c);
    }
    assert(out@ =~= o + escape_char(c));
}

/// Lower-case hexadecimal digit.
fn hex_of(d: u32) -> (c: char)
    requires
        d < 16,
    ensures
        c == hex_digit(d as nat),
{
    if d == 0 { '0' }
    else if d == 1 { '1' }
    else if d == 2 { '2' }
    else if d == 3 { '3' }
    else if d == 4 { '4' }
    else if d == 5 { '5' }
    else if d == 6 { '6' }
    else if d == 7 { '7' }
    else if d == 8 { '8' }
    else if d == 9 { '9' }
    else if d == 10 { 'a' }
    else if d == 11 { 'b' }
    else if d == 12 { 'c' }
    else if d == 13 { 'd' }
    else if d == 14 { 'e' }
    else { 'f' }
}

/// Writes a JSON string literal for `s`.
pub(crate) fn write_quoted(out: &mut Vec<char>, s: &str)
    ensures
        final(out)@ == old(out)@ + quoted(s@),
{
    let ghost o = old(out)@;
    let v = chars_of(s);
    out.push('"');
    let mut i: usize = 0;
    while i < v.len()
        invariant
            i <= v.len(),
            out@ == o + seq!['"'] + escape(v@.take(i as int)),
        decreases v.len() - i,
    {
        write_escaped_char(out, v[i]);
        assert(v@.take(i + 1).drop_last() =~= v@.take(i as int));
        i = i + 1;
    }
    assert(v@.take(v.len() as int) =~= v@);
    out.push('"');
    assert(out@ =~= o + quoted(s@));
}

/// Writes the compact text of `j`.
pub fn write_json(out: &mut Vec<char>, j: &Json)
    ensures
        final(out)@ == old(out)@ + json_text(*j),
    decreases j,
{
    let ghost o = old(out)@;
    match j {
        Json::Null => {
            out.push('n');
            out.push('u');
            out.push('l');
            out.push('l');
        },
        Json::Bool(b) => {
            if *b {
                out.push('t');
                out.push('r');
                out.push('u');
                out.push('e');
            } else {
                out.push('f');
                out.push('a');
                out.push('l');
                out.push('s');
                out.push('e');
            }
        },
        Json::Number(n) => {
            let t = chars_of(n.text.as_str());
            extend_chars(out, t.as_slice());
        },
        Json::String(s) => {
            write_quoted(out, s.as_str());
        },
        Json::Array(items) => {
            out.push('[');
            let mut i: usize = 0;
            while i < items.len()
                invariant
                    i <= items.len(),
                    *j is Array,
                    j->Array_0 == *items,
                    out@ == o + seq!['['] + items_text(items@.subrange(0, i as int)),
                decreases items.len() - i,
            {
                assert(items@.subrange(0, i + 1).subrange(0, i as int) =~= items@.subrange(0, i as int));
                if i > 0 {
                    out.push(',');
                }
                proof {
                    assert(decreases_to!(*j => j->Array_0));
                    assert(decreases_to!(j->Array_0 => j->Array_0[i as int]));
                }
                write_json(out, &items[i]);
                i = i + 1;
            }
            assert(items@.subrange(0, items.len() as int) =~= items@);
            out.push(']');
        },
        Json::Object(members) => {
            out.push('{');
            let mut i: usize = 0;
            while i < members.len()
                invariant
                    i <= members.len(),
                    *j is Object,
                    j->Object_0 == *members,
                    out@ == o + seq!['{'] + members_text(members@.subrange(0, i as int)),
                decreases members.len() - i,
            {
                assert(members@.subrange(0, i + 1).subrange(0, i as int) =~= members@.subrange(0, i as int));
                if i > 0 {
                    out.push(',');
                }
                write_quoted(out, members[i].0.as_str());
                out.push(':');
                proof {
                    assert(decreases_to!(*j => j->Object_0));
                    assert(decreases_to!(j->Object_0 => j->Object_0[i as int]));
                    assert(decreases_to!(j->Object_0[i as int] => j->Object_0[i as int].1));
                }
                write_json(out, &members[i].1);
                i = i + 1;
            }
            assert(members@.subrange(0, members.len() as int) =~= members@);
            out.push('}');
        },
    }
    assert(out@ =~= o + json_text(*j));
}

/// `value.to_string()`: the compact JSON text.
pub fn to_json_string(j: &Json) -> (r: String)
    ensures
        r@ == json_text(*j),
{
    let mut out: Vec<char> = Vec::new();
    write_json(&mut out, j);
    assert(out@ =~= json_text(*j));
    string_of(out.as_slice())
}

/// The text a table cell shows: nothing for `null`, the string itself
/// for a string, and the JSON text for anything else.
pub open spec fn value_text(v: Json) -> Seq<char> {
    match v {
        Json::Null => Seq::empty(),
        Json::String(s) => s@,
        _ => json_text(v),
    }
}

/// `value_text` of a value.
pub fn value_text_exec(v: &Json) -> (r: String)
    ensures
        r@ == value_text(*v),
{
    match v {
        Json::Null => String::new(),
        Json::String(s) => s.clone(),
        _ => to_json_string(v),
    }
}

} // verus!
