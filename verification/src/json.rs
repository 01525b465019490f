//! JSON documents as plain values, with the lookups the OpenAPI reader needs and the compact
//! text rendering of a value.

use vstd::prelude::*;
use crate::text::{concat, str_eq, string_of, string_push};

verus! {

/// A JSON value. Object members keep their order; a number is held as its JSON text.
#[derive(Debug)]
pub enum JsonValue {
    Null,
    Bool(bool),
    Number(String),
    Str(String),
    Array(Vec<JsonValue>),
    Object(Vec<(String, JsonValue)>),
}

/// The value of the first member named `key`.
pub open spec fn member(es: Seq<(String, JsonValue)>, key: Seq<char>) -> Option<JsonValue>
    decreases es.len(),
{
    if es.len() == 0 {
        None
    } else if es[0].0@ == key {
        Some(es[0].1)
    } else {
        member(es.drop_first(), key)
    }
}

/// `value.get(key)`: the member `key` of an object; nothing for other values.
pub open spec fn json_get(v: JsonValue, key: Seq<char>) -> Option<JsonValue> {
    match v {
        JsonValue::Object(es) => member(es@, key),
        _ => None,
    }
}

/// `as_str` of an optional value.
pub open spec fn json_str(v: Option<JsonValue>) -> Option<Seq<char>> {
    match v {
        Some(JsonValue::Str(s)) => Some(s@),
        _ => None,
    }
}

/// `as_bool` of an optional value.
pub open spec fn json_bool(v: Option<JsonValue>) -> Option<bool> {
    match v {
        Some(JsonValue::Bool(b)) => Some(b),
        _ => None,
    }
}

/// Items of an optional array value (no items for anything else).
pub open spec fn json_items(v: Option<JsonValue>) -> Seq<JsonValue> {
    match v {
        Some(JsonValue::Array(items)) => items@,
        _ => Seq::empty(),
    }
}

/// The strings among `items`, in order.
pub open spec fn json_strings(items: Seq<JsonValue>) -> Seq<Seq<char>>
    decreases items.len(),
{
    if items.len() == 0 {
        Seq::empty()
    } else {
        let r = json_strings(items.drop_last());
        match items.last() {
            JsonValue::Str(s) => r.push(s@),
            _ => r,
        }
    }
}

/// Lowercase hexadecimal digit of `v < 16`.
pub open spec fn hex_lower(v: nat) -> char {
    if v < 10 {
        ((v + 48) as u32) as char
    } else {
        ((v + 87) as u32) as char
    }
}

/// How `serde_json` writes one character inside a string literal: `"` and `\` after a
/// backslash, the controls with a short form (`\b \t \n \f \r`) as such, the other controls
/// below U+0020 as `\u00` and two lowercase hex digits, everything else as it is.
pub open spec fn json_escape(c: char) -> Seq<char> {
    if c == '"' {
        seq!['\\', '"']
    } else if c == '\\' {
        seq!['\\', '\\']
    } else if c == '\u{8}' {
        seq!['\\', 'b']
    } else if c == '\t' {
        seq!['\\', 't']
    } else if c == '\n' {
        seq!['\\', 'n']
    } else if c == '\u{c}' {
        seq!['\\', 'f']
    } else if c == '\r' {
        seq!['\\', 'r']
    } else if (c as u32) < 32 {
        seq!['\\', 'u', '0', '0', hex_lower((c as u32 / 16) as nat), hex_lower((c as u32 % 16) as nat)]
    } else {
        seq![c]
    }
}

/// The characters of `s`, each written as `json_escape` says.
pub open spec fn json_escaped(s: Seq<char>) -> Seq<char>
    decreases s.len(),
{
    if s.len() == 0 {
        Seq::empty()
    } else {
        json_escaped(s.drop_last()) + json_escape(s.last())
    }
}

/// The JSON string literal that `serde_json` writes for `s`: quoted and escaped.
pub open spec fn spec_json_quote(s: Seq<char>) -> Seq<char> {
    seq!['"'] + json_escaped(s) + seq!['"']
}

/// `serde_json::to_string` of a string slice: its JSON string literal (the escaping of
/// `format_escaped_str_contents` and `CompactFormatter::write_char_escape`). Serialising a
/// `str` cannot fail in `serde_json`; the empty fallback is never taken.
#[verifier::external_body]
fn json_quote(s: &str) -> (out: String)
    ensures
        out@ == spec_json_quote(s@),
{
    serde_json::to_string(s).unwrap_or_default()
}

/// Compact JSON text of a value, as `serde_json`'s `Display` writes it: no whitespace, members
/// in order, strings quoted and escaped.
pub open spec fn compact(v: JsonValue) -> Seq<char>
    decreases v,
{
    match v {
        JsonValue::Null => "null"@,
        JsonValue::Bool(b) => if b {
            "true"@
        } else {
            "false"@
        },
        JsonValue::Number(t) => t@,
        JsonValue::Str(s) => spec_json_quote(s@),
        JsonValue::Array(items) => seq!['['] + compact_items(items@) + seq![']'],
        JsonValue::Object(es) => seq!['{'] + compact_members(es@) + seq!['}'],
    }
}

/// Items rendered and joined by commas.
pub open spec fn compact_items(s: Seq<JsonValue>) -> Seq<char>
    decreases s,
{
    if s.len() == 0 {
        Seq::empty()
    } else if s.len() == 1 {
        compact(s[0])
    } else {
        compact_items(s.subrange(0, s.len() - 1)) + seq![','] + compact(s[s.len() - 1])
    }
}

/// Members rendered as `"key":value` and joined by commas.
pub open spec fn compact_members(s: Seq<(String, JsonValue)>) -> Seq<char>
    decreases s,
{
    if s.len() == 0 {
        Seq::empty()
    } else if s.len() == 1 {
        spec_json_quote(s[0].0@) + seq![':'] + compact(s[0].1)
    } else {
        compact_members(s.subrange(0, s.len() - 1)) + seq![','] + spec_json_quote(
            s[s.len() - 1].0@,
        ) + seq![':'] + compact(s[s.len() - 1].1)
    }
}

impl JsonValue {
    /// `value.get(key)`.
    pub fn get(&self, key: &str) -> (r: Option<&JsonValue>)
        ensures
            match r {
                Some(x) => json_get(*self, key@) == Some(*x),
                None => json_get(*self, key@) is None,
            },
    {
        match self {
            JsonValue::Object(es) => {
                let mut i: usize = 0;
                assert(es@.skip(0) =~= es@);
                while i < es.len()
                    invariant
                        i <= es@.len(),
                        *self == JsonValue::Object(*es),
                        member(es@, key@) == member(es@.skip(i as int), key@),
                    decreases es@.len() - i,
                {
                    assert(es@.skip(i as int)[0] == es@[i as int]);
                    assert(es@.skip(i as int).drop_first() =~= es@.skip(i + 1));
                    if str_eq(es[i].0.as_str(), key) {
                        assert(member(es@.skip(i as int), key@) == Some(es@[i as int].1));
                        return Some(&es[i].1);
                    }
                    i += 1;
                }
                None
            },
            _ => None,
        }
    }

    /// `as_str`.
    pub fn as_str(&self) -> (r: Option<&String>)
        ensures
            match r {
                Some(s) => json_str(Some(*self)) == Some(s@),
                None => json_str(Some(*self)) is None,
            },
    {
        match self {
            JsonValue::Str(s) => Some(s),
            _ => None,
        }
    }

    /// `as_bool`.
    pub fn as_bool(&self) -> (r: Option<bool>)
        ensures
            r == json_bool(Some(*self)),
    {
        match self {
            JsonValue::Bool(b) => Some(*b),
            _ => None,
        }
    }

    /// Whether this is an object.
    pub fn is_object(&self) -> (b: bool)
        ensures
            b == (*self is Object),
    {
        match self {
            JsonValue::Object(_) => true,
            _ => false,
        }
    }

    /// Compact JSON text (`value.to_string()`).
    pub fn to_compact_string(&self) -> (out: String)
        ensures
            out@ == compact(*self),
        decreases self,
    {
        match self {
            JsonValue::Null => string_of("null"),
            JsonValue::Bool(b) => if *b {
                string_of("true")
            } else {
                string_of("false")
            },
            JsonValue::Number(t) => string_of(t.as_str()),
            JsonValue::Str(s) => json_quote(s.as_str()),
            JsonValue::Array(items) => {
                let mut out = string_of("[");
                let mut i: usize = 0;
                proof {
                    reveal_strlit("[");
                    assert(items@.subrange(0, 0) =~= Seq::<JsonValue>::empty());
                }
                while i < items.len()
                    invariant
                        i <= items@.len(),
                        *self == JsonValue::Array(*items),
                        out@ == seq!['['] + compact_items(items@.subrange(0, i as int)),
                    decreases items@.len() - i,
                {
                    let ghost pre = items@.subrange(0, i as int);
                    let ghost nxt = items@.subrange(0, i + 1);
                    assert(nxt.subrange(0, nxt.len() - 1) =~= pre);
                    assert(nxt[nxt.len() - 1] == items@[i as int]);
                    if i > 0 {
                        string_push(&mut out, ',');
                    }
                    proof {
                        assert(decreases_to!(*self => self->Array_0));
                        assert(decreases_to!(self->Array_0 => self->Array_0@));
                        assert(decreases_to!(self->Array_0@ => self->Array_0@[i as int]));
                    }
                    let t = items[i].to_compact_string();
                    out = concat(out.as_str(), t.as_str());
                    proof {
                        if i == 0 {
                            assert(nxt.len() == 1);
                            assert(nxt[0] == items@[0]);
                        }
                    }
                    i += 1;
                }
                assert(items@.subrange(0, items@.len() as int) =~= items@);
                string_push(&mut out, ']');
                out
            },
            JsonValue::Object(es) => {
                let mut out = string_of("{");
                let mut i: usize = 0;
                proof {
                    reveal_strlit("{");
                    assert(es@.subrange(0, 0) =~= Seq::<(String, JsonValue)>::empty());
                }
                while i < es.len()
                    invariant
                        i <= es@.len(),
                        *self == JsonValue::Object(*es),
                        out@ == seq!['{'] + compact_members(es@.subrange(0, i as int)),
                    decreases es@.len() - i,
                {
                    let ghost pre = es@.subrange(0, i as int);
                    let ghost nxt = es@.subrange(0, i + 1);
                    assert(nxt.subrange(0, nxt.len() - 1) =~= pre);
                    assert(nxt[nxt.len() - 1] == es@[i as int]);
                    if i > 0 {
                        string_push(&mut out, ',');
                    }
                    let k = json_quote(es[i].0.as_str());
                    out = concat(out.as_str(), k.as_str());
                    string_push(&mut out, ':');
                    proof {
                        assert(decreases_to!(*self => self->Object_0));
                        assert(decreases_to!(self->Object_0 => self->Object_0@));
                        assert(decreases_to!(self->Object_0@ => self->Object_0@[i as int]));
                        assert(decreases_to!(self->Object_0@[i as int] => self->Object_0@[i as int].1));
                    }
                    let t = es[i].1.to_compact_string();
                    out = concat(out.as_str(), t.as_str());
                    proof {
                        if i == 0 {
                            assert(nxt.len() == 1);
                            assert(nxt[0] == es@[0]);
                        }
                    }
                    i += 1;
                }
                assert(es@.subrange(0, es@.len() as int) =~= es@);
                string_push(&mut out, '}');
                out
            },
        }
    }
}

/// The strings among `items` (`filter_map(as_str)`), copied.
pub fn string_items(items: &[JsonValue]) -> (out: Vec<String>)
    ensures
        out@.map_values(|s: String| s@) == json_strings(items@),
{
    let mut out: Vec<String> = Vec::new();
    let mut i: usize = 0;
    while i < items.len()
        invariant
            i <= items@.len(),
            out@.map_values(|s: String| s@) == json_strings(items@.take(i as int)),
        decreases items@.len() - i,
    {
        assert(items@.take(i + 1).drop_last() =~= items@.take(i as int));
        match &items[i] {
            JsonValue::Str(s) => {
                let ghost before = out@;
                out.push(string_of(s.as_str()));
                assert(out@.map_values(|s: String| s@) =~= before.map_values(|s: String| s@).push(
                    s@,
                ));
            },
            _ => {},
        }
        i += 1;
    }
    assert(items@.take(items@.len() as int) =~= items@);
    out
}


/// The value of a run of decimal digits.
pub open spec fn digits_value(s: Seq<char>) -> nat
    decreases s.len(),
{
    if s.len() == 0 {
        0
    } else {
        digits_value(s.drop_last()) * 10 + ((s.last() as nat) - ('0' as nat)) as nat
    }
}

/// Every character is a decimal digit.
pub open spec fn all_digits(s: Seq<char>) -> bool {
    forall|i: int| 0 <= i < s.len() ==> '0' <= #[trigger] s[i] <= '9'
}

/// `as_u64` of an optional value: a number written as a non-negative integer that fits in
/// 64 bits.
pub open spec fn json_u64(v: Option<JsonValue>) -> Option<u64> {
    match v {
        Some(JsonValue::Number(t)) => if t@.len() > 0 && all_digits(t@) && digits_value(t@)
            <= u64::MAX {
            Some(digits_value(t@) as u64)
        } else {
            None
        },
        _ => None,
    }
}

proof fn lemma_digits_grow(s: Seq<char>, i: int, j: int)
    requires
        0 <= i <= j <= s.len(),
        all_digits(s),
    ensures
        digits_value(s.take(i)) <= digits_value(s.take(j)),
    decreases j - i,
{
    if i < j {
        lemma_digits_grow(s, i, j - 1);
        assert(s.take(j).drop_last() =~= s.take(j - 1));
        assert('0' <= s[j - 1] <= '9');
    }
}

impl JsonValue {
    /// `as_u64`.
    pub fn as_u64(&self) -> (r: Option<u64>)
        ensures
            r == json_u64(Some(*self)),
    {
        match self {
            JsonValue::Number(t) => {
                let cs = crate::text::chars_of(t.as_str());
                if cs.len() == 0 {
                    return None;
                }
                let mut val: u64 = 0;
                let mut i: usize = 0;
                while i < cs.len()
                    invariant
                        cs@ == t@,
                        *self matches JsonValue::Number(x) && x@ == t@,
                        i <= cs@.len(),
                        all_digits(cs@.take(i as int)),
                        val as nat == digits_value(cs@.take(i as int)),
                    decreases cs@.len() - i,
                {
                    let c = cs[i];
                    if c < '0' || c > '9' {
                        assert(!all_digits(t@)) by {
                            assert(!('0' <= t@[i as int] <= '9'));
                        }
                        return None;
                    }
                    let d = ((c as u32) - ('0' as u32)) as u64;
                    proof {
                        assert(cs@.take(i + 1).drop_last() =~= cs@.take(i as int));
                        assert(all_digits(cs@.take(i + 1)));
                    }
                    proof {
                        assert(cs@.take(i + 1).last() == c);
                        assert(digits_value(cs@.take(i + 1)) == val * 10 + d);
                    }
                    if val > (u64::MAX - d) / 10 {
                        proof {
                            assert(val * 10 + d > u64::MAX) by (nonlinear_arith)
                                requires
                                    val > (u64::MAX - d) / 10,
                                    d <= 9,
                            ;
                            if all_digits(t@) {
                                lemma_digits_grow(t@, i + 1, t@.len() as int);
                                assert(t@.take(t@.len() as int) =~= t@);
                            }
                        }
                        return None;
                    }
                    val = val * 10 + d;
                    i += 1;
                }
                assert(cs@.take(cs@.len() as int) =~= t@);
                Some(val)
            },
            _ => None,
        }
    }
}

} // verus!
