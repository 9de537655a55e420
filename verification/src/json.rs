//! A JSON value model and the compact JSON text of a value.
//!
//! Requests to and responses from the Agnes API are JSON documents. The
//! library reads and builds them as [`JsonValue`]s; numbers are kept as the
//! text of their JSON literal.

use vstd::prelude::*;

use crate::text::{owned, push_char, push_str, str_eq};

verus! {

/// A JSON value.
#[derive(Debug)]
pub enum JsonValue {
    /// `null`.
    Null,
    /// `true` or `false`.
    Bool(bool),
    /// A number, as the text of its JSON literal (e.g. `"24.0"`, `"121"`).
    Number(String),
    /// A string.
    Str(String),
    /// An array.
    Array(Vec<JsonValue>),
    /// An object, as its entries in order.
    Object(Vec<(String, JsonValue)>),
}

/// Position of the first entry with key `key`, or `entries.len()` if none.
pub open spec fn entry_pos(entries: Seq<(String, JsonValue)>, key: Seq<char>) -> int
    decreases entries.len(),
{
    if entries.len() == 0 {
        0
    } else if entries[0].0@ == key {
        0
    } else {
        1 + entry_pos(entries.drop_first(), key)
    }
}

/// The value stored under `key` in an object (what `Value::get` returns).
pub open spec fn get(v: JsonValue, key: Seq<char>) -> Option<JsonValue> {
    match v {
        JsonValue::Object(m) => {
            let p = entry_pos(m@, key);
            if p < m@.len() {
                Some(m@[p].1)
            } else {
                None
            }
        },
        _ => None,
    }
}

/// The string held by a value (what `Value::as_str` returns).
pub open spec fn as_str(v: JsonValue) -> Option<Seq<char>> {
    match v {
        JsonValue::Str(s) => Some(s@),
        _ => None,
    }
}

/// The string stored under `key`, if that entry is a string.
pub open spec fn get_str(v: JsonValue, key: Seq<char>) -> Option<Seq<char>> {
    match get(v, key) {
        Some(x) => as_str(x),
        None => None,
    }
}

/// The elements of an array value.
pub open spec fn elements(v: JsonValue) -> Seq<JsonValue> {
    match v {
        JsonValue::Array(a) => a@,
        _ => Seq::<JsonValue>::empty(),
    }
}

pub proof fn lemma_entry_pos(entries: Seq<(String, JsonValue)>, key: Seq<char>)
    ensures
        0 <= entry_pos(entries, key) <= entries.len(),
        entry_pos(entries, key) < entries.len() ==> entries[entry_pos(entries, key)].0@ == key,
        forall|k: int| 0 <= k < entry_pos(entries, key) ==> entries[k].0@ != key,
    decreases entries.len(),
{
    if entries.len() > 0 && entries[0].0@ != key {
        lemma_entry_pos(entries.drop_first(), key);
        assert forall|k: int| 0 <= k < entry_pos(entries, key) implies entries[k].0@ != key by {
            if k > 0 {
                assert(entries[k] == entries.drop_first()[k - 1]);
            }
        }
    }
}

impl JsonValue {
    /// The value stored under `key` in an object (`Value::get`).
    pub fn get<'a>(&'a self, key: &str) -> (r: Option<&'a JsonValue>)
        ensures
            r matches Some(x) ==> get(*self, key@) == Some(*x),
            r is None ==> get(*self, key@) is None,
    {
        match self {
            JsonValue::Object(m) => {
                let mut i: usize = 0;
                while i < m.len()
                    invariant
                        0 <= i <= m@.len(),
                        *self == JsonValue::Object(*m),
                        forall|k: int| 0 <= k < i ==> m@[k].0@ != key@,
                    decreases m@.len() - i,
                {
                    if str_eq(m[i].0.as_str(), key) {
                        proof {
                            lemma_entry_pos(m@, key@);
                            assert(*self == JsonValue::Object(*m));
                            let p = entry_pos(m@, key@);
                            if p < i {
                                assert(m@[p].0@ != key@);
                            }
                            if p > i {
                                assert(m@[i as int].0@ != key@);
                            }
                        }
                        return Some(&m[i].1);
                    }
                    i = i + 1;
                }
                proof {
                    lemma_entry_pos(m@, key@);
                }
                None
            },
            _ => None,
        }
    }

    /// The string held by this value (`Value::as_str`).
    pub fn as_str<'a>(&'a self) -> (r: Option<&'a str>)
        ensures
            r matches Some(s) ==> as_str(*self) == Some(s@),
            r is None ==> as_str(*self) is None,
    {
        match self {
            JsonValue::Str(s) => Some(s.as_str()),
            _ => None,
        }
    }

    /// The string stored under `key`, if that entry is a string.
    pub fn get_str<'a>(&'a self, key: &str) -> (r: Option<&'a str>)
        ensures
            r matches Some(s) ==> get_str(*self, key@) == Some(s@),
            r is None ==> get_str(*self, key@) is None,
    {
        match self.get(key) {
            Some(x) => x.as_str(),
            None => None,
        }
    }

    /// Whether this value is `null` (`Value::is_null`).
    pub fn is_null(&self) -> (r: bool)
        ensures
            r == (*self is Null),
    {
        match self {
            JsonValue::Null => true,
            _ => false,
        }
    }
}

// ---------------------------------------------------------------------------
// The mathematical model of a JSON value
// ---------------------------------------------------------------------------

/// A JSON value as a mathematical object: strings and number literals as
/// character sequences, arrays and objects as sequences.
pub enum Json {
    Null,
    Bool(bool),
    Num(Seq<char>),
    Str(Seq<char>),
    Arr(Seq<Json>),
    Obj(Seq<(Seq<char>, Json)>),
}

/// The model of a value.
pub open spec fn json_view(v: JsonValue) -> Json
    decreases v,
{
    match v {
        JsonValue::Null => Json::Null,
        JsonValue::Bool(b) => Json::Bool(b),
        JsonValue::Number(n) => Json::Num(n@),
        JsonValue::Str(s) => Json::Str(s@),
        JsonValue::Array(a) => Json::Arr(items_view(a@)),
        JsonValue::Object(m) => Json::Obj(entries_view(m@)),
    }
}

/// The models of array items.
pub open spec fn items_view(items: Seq<JsonValue>) -> Seq<Json>
    decreases items,
{
    if items.len() == 0 {
        Seq::<Json>::empty()
    } else {
        items_view(items.drop_last()).push(json_view(items.last()))
    }
}

/// The models of object entries.
pub open spec fn entries_view(entries: Seq<(String, JsonValue)>) -> Seq<(Seq<char>, Json)>
    decreases entries,
{
    if entries.len() == 0 {
        Seq::<(Seq<char>, Json)>::empty()
    } else {
        entries_view(entries.drop_last()).push((entries.last().0@, json_view(entries.last().1)))
    }
}

impl View for JsonValue {
    type V = Json;

    open spec fn view(&self) -> Json {
        json_view(*self)
    }
}

/// The model of an array of strings.
pub open spec fn str_array(s: Seq<Seq<char>>) -> Json {
    Json::Arr(s.map_values(|x: Seq<char>| Json::Str(x)))
}

/// A JSON number holding an unsigned integer.
pub fn number_u64(n: u64) -> (r: JsonValue)
    ensures
        r@ == Json::Num(crate::text::decimal(n as nat)),
{
    JsonValue::Number(crate::text::u64_to_string(n))
}

/// A JSON number holding a signed integer.
pub fn number_i64(n: i64) -> (r: JsonValue)
    ensures
        r@ == Json::Num(crate::text::signed_decimal(n as int)),
{
    JsonValue::Number(crate::text::i64_to_string(n))
}

/// A JSON string.
pub fn string_value(s: &str) -> (r: JsonValue)
    ensures
        r@ == Json::Str(s@),
{
    JsonValue::Str(owned(s))
}

/// An empty object's entries.
pub fn no_entries() -> (r: Vec<(String, JsonValue)>)
    ensures
        entries_view(r@) == Seq::<(Seq<char>, Json)>::empty(),
{
    Vec::new()
}

/// Appends the entry `key: v` to object entries.
pub fn push_entry(entries: &mut Vec<(String, JsonValue)>, key: &str, v: JsonValue)
    ensures
        entries_view(final(entries)@) == entries_view(old(entries)@).push((key@, v@)),
{
    let ghost before = entries@;
    entries.push((owned(key), v));
    assert(entries@.drop_last() =~= before);
}

/// Appends an item to array items.
pub fn push_item(items: &mut Vec<JsonValue>, v: JsonValue)
    ensures
        items_view(final(items)@) == items_view(old(items)@).push(v@),
{
    let ghost before = items@;
    items.push(v);
    assert(items@.drop_last() =~= before);
}

/// An array of JSON strings.
pub fn string_array(items: &Vec<String>) -> (r: JsonValue)
    ensures
        r@ == str_array(items@.map_values(|x: String| x@)),
{
    let mut out: Vec<JsonValue> = Vec::new();
    let mut i: usize = 0;
    while i < items.len()
        invariant
            0 <= i <= items@.len(),
            items_view(out@) == items@.subrange(0, i as int).map_values(|x: String| Json::Str(x@)),
        decreases items@.len() - i,
    {
        let ghost before = out@;
        out.push(string_value(items[i].as_str()));
        assert(out@.drop_last() =~= before);
        assert(items@.subrange(0, i + 1 as int).map_values(|x: String| Json::Str(x@))
            =~= items@.subrange(0, i as int).map_values(|x: String| Json::Str(x@)).push(
            Json::Str(items@[i as int]@),
        ));
        i = i + 1;
    }
    assert(items@.subrange(0, items@.len() as int) =~= items@);
    assert(items@.map_values(|x: String| Json::Str(x@)) =~= items@.map_values(|x: String| x@).map_values(
        |x: Seq<char>| Json::Str(x),
    ));
    JsonValue::Array(out)
}

// ---------------------------------------------------------------------------
// Compact JSON text
// ---------------------------------------------------------------------------

/// Lower-case hexadecimal digit.
pub open spec fn hex_lower(d: nat) -> char {
    if d < 10 {
        ((48 + d) as u32) as char
    } else {
        ((87 + d) as u32) as char
    }
}

/// The JSON text of one string character.
pub open spec fn escape_char(c: char) -> Seq<char> {
    if c == '"' {
        seq!['\\', '"']
    } else if c == '\\' {
        seq!['\\', '\\']
    } else if c == '\u{08}' {
        seq!['\\', 'b']
    } else if c == '\u{0C}' {
        seq!['\\', 'f']
    } else if c == '\n' {
        seq!['\\', 'n']
    } else if c == '\r' {
        seq!['\\', 'r']
    } else if c == '\t' {
        seq!['\\', 't']
    } else if (c as u32) < 0x20 {
        seq!['\\', 'u', '0', '0', hex_lower(((c as u32) / 16) as nat), hex_lower(((c as u32) % 16) as nat)]
    } else {
        seq![c]
    }
}

/// The escaped body of a JSON string literal.
pub open spec fn escape(s: Seq<char>) -> Seq<char>
    decreases s.len(),
{
    if s.len() == 0 {
        Seq::<char>::empty()
    } else {
        escape(s.drop_last()) + escape_char(s.last())
    }
}

/// A JSON string literal.
pub open spec fn quoted(s: Seq<char>) -> Seq<char> {
    seq!['"'] + escape(s) + seq!['"']
}

/// The compact JSON text of a value (what `Value::to_string` returns).
pub open spec fn json_text(v: JsonValue) -> Seq<char>
    decreases v,
{
    match v {
        JsonValue::Null => "null"@,
        JsonValue::Bool(b) => if b {
            "true"@
        } else {
            "false"@
        },
        JsonValue::Number(n) => n@,
        JsonValue::Str(s) => quoted(s@),
        JsonValue::Array(a) => seq!['['] + items_text(a@) + seq![']'],
        JsonValue::Object(m) => seq!['{'] + entries_text(m@) + seq!['}'],
    }
}

/// Comma-separated JSON texts of array items.
pub open spec fn items_text(items: Seq<JsonValue>) -> Seq<char>
    decreases items,
{
    if items.len() == 0 {
        Seq::<char>::empty()
    } else if items.len() == 1 {
        json_text(items[0])
    } else {
        items_text(items.drop_last()) + seq![','] + json_text(items.last())
    }
}

/// Comma-separated `"key":value` texts of object entries.
pub open spec fn entries_text(entries: Seq<(String, JsonValue)>) -> Seq<char>
    decreases entries,
{
    if entries.len() == 0 {
        Seq::<char>::empty()
    } else if entries.len() == 1 {
        quoted(entries[0].0@) + seq![':'] + json_text(entries[0].1)
    } else {
        entries_text(entries.drop_last()) + seq![','] + quoted(entries.last().0@) + seq![':']
            + json_text(entries.last().1)
    }
}

fn hex_digit(d: u32) -> (r: char)
    requires
        d < 16,
    ensures
        r == hex_lower(d as nat),
{
    if d < 10 {
        ((48 + d) as u8) as char
    } else {
        ((87 + d) as u8) as char
    }
}

fn push_escaped_char(out: &mut String, c: char)
    ensures
        final(out)@ == old(out)@ + escape_char(c),
{
    let ghost before = out@;
    if c == '"' {
        push_char(out, '\\');
        push_char(out, '"');
    } else if c == '\\' {
        push_char(out, '\\');
        push_char(out, '\\');
    } else if c == '\u{08}' {
        push_char(out, '\\');
        push_char(out, 'b');
    } else if c == '\u{0C}' {
        push_char(out, '\\');
        push_char(out, 'f');
    } else if c == '\n' {
        push_char(out, '\\');
        push_char(out, 'n');
    } else if c == '\r' {
        push_char(out, '\\');
        push_char(out, 'r');
    } else if c == '\t' {
        push_char(out, '\\');
        push_char(out, 't');
    } else if (c as u32) < 0x20 {
        push_char(out, '\\');
        push_char(out, 'u');
        push_char(out, '0');
        push_char(out, '0');
        push_char(out, hex_digit((c as u32) / 16));
        push_char(out, hex_digit((c as u32) % 16));
    } else {
        push_char(out, c);
    }
    assert(out@ =~= before + escape_char(c));
}

/// Appends a JSON string literal of `s`.
pub fn push_quoted(out: &mut String, s: &str)
    ensures
        final(out)@ == old(out)@ + quoted(s@),
{
    let ghost before = out@;
    push_char(out, '"');
    let cs = crate::text::to_chars(s);
    let mut i: usize = 0;
    while i < cs.len()
        invariant
            cs@ == s@,
            0 <= i <= cs@.len(),
            out@ == before + seq!['"'] + escape(cs@.subrange(0, i as int)),
        decreases cs@.len() - i,
    {
        push_escaped_char(out, cs[i]);
        assert(cs@.subrange(0, i + 1 as int).drop_last() =~= cs@.subrange(0, i as int));
        i = i + 1;
        assert(out@ =~= before + seq!['"'] + escape(cs@.subrange(0, i as int)));
    }
    assert(cs@.subrange(0, cs@.len() as int) =~= s@);
    push_char(out, '"');
    assert(out@ =~= before + quoted(s@));
}

/// Appends the compact JSON text of `v`.
pub fn push_json_text(out: &mut String, v: &JsonValue)
    ensures
        final(out)@ == old(out)@ + json_text(*v),
    decreases v,
{
    let ghost before = out@;
    match v {
        JsonValue::Null => push_str(out, "null"),
        JsonValue::Bool(b) => if *b {
            push_str(out, "true")
        } else {
            push_str(out, "false")
        },
        JsonValue::Number(n) => push_str(out, n.as_str()),
        JsonValue::Str(s) => push_quoted(out, s.as_str()),
        JsonValue::Array(a) => {
            push_char(out, '[');
            let mut i: usize = 0;
            while i < a.len()
                invariant
                    0 <= i <= a@.len(),
                    *v == JsonValue::Array(*a),
                    out@ == before + seq!['['] + items_text(a@.subrange(0, i as int)),
                decreases a@.len() - i,
            {
                let ghost mid = out@;
                if i > 0 {
                    push_char(out, ',');
                }
                assert(*v == JsonValue::Array(*a));
                assert(decreases_to!(*v => (*v)->Array_0));
                assert(decreases_to!(*a => a@));
                assert(decreases_to!(a@ => a@[i as int]));
                push_json_text(out, &a[i]);
                let ghost next = a@.subrange(0, i + 1 as int);
                assert(next.drop_last() =~= a@.subrange(0, i as int));
                i = i + 1;
                assert(out@ =~= before + seq!['['] + items_text(a@.subrange(0, i as int)));
            }
            assert(a@.subrange(0, a@.len() as int) =~= a@);
            push_char(out, ']');
            assert(out@ =~= before + json_text(*v));
        },
        JsonValue::Object(m) => {
            push_char(out, '{');
            let mut i: usize = 0;
            while i < m.len()
                invariant
                    0 <= i <= m@.len(),
                    *v == JsonValue::Object(*m),
                    out@ == before + seq!['{'] + entries_text(m@.subrange(0, i as int)),
                decreases m@.len() - i,
            {
                if i > 0 {
                    push_char(out, ',');
                }
                push_quoted(out, m[i].0.as_str());
                push_char(out, ':');
                assert(*v == JsonValue::Object(*m));
                assert(decreases_to!(*v => (*v)->Object_0));
                assert(decreases_to!(*m => m@));
                assert(decreases_to!(m@ => m@[i as int]));
                assert(decreases_to!(m@[i as int] => m@[i as int].1));
                push_json_text(out, &m[i].1);
                let ghost next = m@.subrange(0, i + 1 as int);
                assert(next.drop_last() =~= m@.subrange(0, i as int));
                i = i + 1;
                assert(out@ =~= before + seq!['{'] + entries_text(m@.subrange(0, i as int)));
            }
            assert(m@.subrange(0, m@.len() as int) =~= m@);
            push_char(out, '}');
            assert(out@ =~= before + json_text(*v));
        },
    }
}

/// The compact JSON text of `v` (`Value::to_string`).
pub fn to_json_text(v: &JsonValue) -> (r: String)
    ensures
        r@ == json_text(*v),
{
    let mut out = String::new();
    push_json_text(&mut out, v);
    assert(out@ =~= json_text(*v));
    out
}

} // verus!
