//! The response view of an executed request: the pretty JSON split into lines and
//! highlighted token by token, scrolling, a table of the `items` array, and the image URLs
//! that the response carries.

use vstd::prelude::*;
use crate::json::{json_get, json_u64, JsonValue};
use crate::keys::KeyCode;
use crate::text::{chars_of, concat, seq_contains, seq_starts_with, str_contains, str_eq, str_starts_with, string_from_chars, string_of};

verus! {

/// How the response is shown.
#[derive(Debug, Clone, Copy, PartialEq, Eq, Structural)]
pub enum ResultViewMode {
    Json,
    Table,
}

/// What a highlighted piece of a JSON line is.
#[derive(Debug, Clone, Copy, PartialEq, Eq, Structural)]
pub enum TokenKind {
    /// A quoted string followed by `:`.
    Key,
    /// Any other quoted string.
    Str,
    Number,
    /// `true`, `false` or `null`.
    Literal,
    /// One other byte.
    Plain,
}

/// A piece of a line: the bytes `start..end` and what they are.
#[derive(Debug, Clone, Copy, PartialEq, Eq, Structural)]
pub struct Token {
    pub start: usize,
    pub end: usize,
    pub kind: TokenKind,
}

// ---------------------------------------------------------------------------
// Highlighting one line
// ---------------------------------------------------------------------------

pub open spec fn is_digit(c: u8) -> bool {
    48 <= c <= 57
}

/// Bytes that continue a number: digits, `.`, `e`, `E`, `+`, `-`.
pub open spec fn is_number_byte(c: u8) -> bool {
    is_digit(c) || c == 46 || c == 101 || c == 69 || c == 43 || c == 45
}

/// Where a quoted string that started before `j` ends: just after its closing quote, or at
/// the end of the line; a backslash skips the byte after it.
pub open spec fn string_end(b: Seq<u8>, j: int) -> int
    decreases b.len() - j,
{
    if j < 0 || j >= b.len() {
        j
    } else if b[j] == 92 && j + 1 < b.len() {
        string_end(b, j + 2)
    } else if b[j] == 34 {
        j + 1
    } else {
        string_end(b, j + 1)
    }
}

/// Where a run of number bytes from `j` ends.
pub open spec fn number_end(b: Seq<u8>, j: int) -> int
    decreases b.len() - j,
{
    if j < 0 || j >= b.len() {
        j
    } else if is_number_byte(b[j]) {
        number_end(b, j + 1)
    } else {
        j
    }
}

/// The first position at or after `j` that is not a space or a tab.
pub open spec fn after_blanks(b: Seq<u8>, j: int) -> int
    decreases b.len() - j,
{
    if 0 <= j < b.len() && (b[j] == 32 || b[j] == 9) {
        after_blanks(b, j + 1)
    } else {
        j
    }
}

/// A colon follows position `e`, past spaces and tabs.
pub open spec fn key_follows(b: Seq<u8>, e: int) -> bool {
    let k = after_blanks(b, e);
    0 <= k < b.len() && b[k] == 58
}

/// The bytes `lit` stand at position `i`.
pub open spec fn literal_at(b: Seq<u8>, i: int, lit: Seq<u8>) -> bool {
    0 <= i && i + lit.len() <= b.len() && b.subrange(i, i + lit.len()) == lit
}

pub open spec fn true_bytes() -> Seq<u8> {
    seq![116u8, 114u8, 117u8, 101u8]
}

pub open spec fn false_bytes() -> Seq<u8> {
    seq![102u8, 97u8, 108u8, 115u8, 101u8]
}

pub open spec fn null_bytes() -> Seq<u8> {
    seq![110u8, 117u8, 108u8, 108u8]
}

/// A number starts at `i`: a digit, or `-` before a digit.
pub open spec fn number_starts(b: Seq<u8>, i: int) -> bool {
    is_digit(b[i]) || (b[i] == 45 && i + 1 < b.len() && is_digit(b[i + 1]))
}

/// The tokens of line `b` from position `i` on.
pub open spec fn tokens_from(b: Seq<u8>, i: int) -> Seq<(int, int, TokenKind)>
    decreases b.len() - i,
{
    if i < 0 || i >= b.len() {
        seq![]
    } else if b[i] == 34 {
        let e = string_end(b, i + 1);
        if i < e <= b.len() {
            seq![
                (
                    i,
                    e,
                    if key_follows(b, e) {
                        TokenKind::Key
                    } else {
                        TokenKind::Str
                    },
                ),
            ] + tokens_from(b, e)
        } else {
            seq![]
        }
    } else if number_starts(b, i) {
        let e = number_end(
            b,
            if b[i] == 45 {
                i + 1
            } else {
                i
            },
        );
        if i < e <= b.len() {
            seq![(i, e, TokenKind::Number)] + tokens_from(b, e)
        } else {
            seq![]
        }
    } else if literal_at(b, i, true_bytes()) {
        seq![(i, i + 4, TokenKind::Literal)] + tokens_from(b, i + 4)
    } else if literal_at(b, i, false_bytes()) {
        seq![(i, i + 5, TokenKind::Literal)] + tokens_from(b, i + 5)
    } else if literal_at(b, i, null_bytes()) {
        seq![(i, i + 4, TokenKind::Literal)] + tokens_from(b, i + 4)
    } else {
        seq![(i, i + 1, TokenKind::Plain)] + tokens_from(b, i + 1)
    }
}

/// Tokens as plain values.
pub open spec fn token_view(t: Seq<Token>) -> Seq<(int, int, TokenKind)> {
    t.map_values(|k: Token| (k.start as int, k.end as int, k.kind))
}

proof fn lemma_string_end_bounds(b: Seq<u8>, j: int)
    requires
        0 <= j <= b.len(),
    ensures
        j <= string_end(b, j) <= b.len(),
    decreases b.len() - j,
{
    if j < b.len() {
        if b[j] == 92 && j + 1 < b.len() {
            lemma_string_end_bounds(b, j + 2);
        } else if b[j] != 34 {
            lemma_string_end_bounds(b, j + 1);
        }
    }
}

fn lit_at(b: &[u8], i: usize, lit: &[u8]) -> (r: bool)
    requires
        i <= b@.len(),
    ensures
        r == literal_at(b@, i as int, lit@),
{
    let blen = b.len();
    if lit.len() > blen - i {
        return false;
    }
    let mut k: usize = 0;
    while k < lit.len()
        invariant
            blen == b@.len(),
            i + lit@.len() <= blen,
            k <= lit@.len(),
            forall|m: int| 0 <= m < k ==> b@[i + m] == lit@[m],
        decreases lit@.len() - k,
    {
        if b[i + k] != lit[k] {
            assert(b@.subrange(i as int, i + lit@.len())[k as int] != lit@[k as int]);
            return false;
        }
        k += 1;
    }
    assert(b@.subrange(i as int, i + lit@.len()) =~= lit@);
    true
}

/// The highlighted pieces of one line of pretty JSON, as byte ranges.
pub fn highlight_json_line(b: &[u8]) -> (out: Vec<Token>)
    ensures
        token_view(out@) == tokens_from(b@, 0),
{
    let len = b.len();
    let tb: [u8; 4] = [116u8, 114u8, 117u8, 101u8];
    let fb: [u8; 5] = [102u8, 97u8, 108u8, 115u8, 101u8];
    let nb: [u8; 4] = [110u8, 117u8, 108u8, 108u8];
    assert(tb@ =~= true_bytes());
    assert(fb@ =~= false_bytes());
    assert(nb@ =~= null_bytes());
    let mut out: Vec<Token> = Vec::new();
    let mut i: usize = 0;
    while i < len
        invariant
            len == b@.len(),
            i <= len,
            tb@ == true_bytes(),
            fb@ == false_bytes(),
            nb@ == null_bytes(),
            token_view(out@) + tokens_from(b@, i as int) == tokens_from(b@, 0),
        decreases len - i,
    {
        let ghost prev = token_view(out@);
        if b[i] == 34u8 {
            let mut end: usize = i + 1;
            let mut done = false;
            while end < len && !done
                invariant
                    len == b@.len(),
                    i < len,
                    i + 1 <= end <= len,
                    !done ==> string_end(b@, end as int) == string_end(b@, i + 1),
                    done ==> end as int == string_end(b@, i + 1),
                decreases len - end,
            {
                if b[end] == 92u8 && end + 1 < len {
                    end = end + 2;
                } else if b[end] == 34u8 {
                    end = end + 1;
                    done = true;
                } else {
                    end = end + 1;
                }
            }
            let mut k: usize = end;
            while k < len && (b[k] == 32u8 || b[k] == 9u8)
                invariant
                    len == b@.len(),
                    end <= k <= len,
                    after_blanks(b@, k as int) == after_blanks(b@, end as int),
                decreases len - k,
            {
                k += 1;
            }
            let is_key = k < len && b[k] == 58u8;
            out.push(
                Token {
                    start: i,
                    end,
                    kind: if is_key {
                        TokenKind::Key
                    } else {
                        TokenKind::Str
                    },
                },
            );
            proof {
                assert(token_view(out@) =~= prev.push(
                    (
                        i as int,
                        end as int,
                        if is_key {
                            TokenKind::Key
                        } else {
                            TokenKind::Str
                        },
                    ),
                ));
                assert(token_view(out@) + tokens_from(b@, end as int) =~= prev + tokens_from(
                    b@,
                    i as int,
                ));
            }
            i = end;
        } else if (b[i] >= 48u8 && b[i] <= 57u8) || (b[i] == 45u8 && i + 1 < len && b[i + 1]
            >= 48u8 && b[i + 1] <= 57u8) {
            let mut end: usize = i;
            if b[end] == 45u8 {
                end = end + 1;
            }
            let ghost s = end;
            while end < len && ((b[end] >= 48u8 && b[end] <= 57u8) || b[end] == 46u8 || b[end]
                == 101u8 || b[end] == 69u8 || b[end] == 43u8 || b[end] == 45u8)
                invariant
                    len == b@.len(),
                    s <= end <= len,
                    number_end(b@, end as int) == number_end(b@, s as int),
                decreases len - end,
            {
                end = end + 1;
            }
            assert(end > i);
            out.push(Token { start: i, end, kind: TokenKind::Number });
            proof {
                assert(token_view(out@) =~= prev.push((i as int, end as int, TokenKind::Number)));
                assert(token_view(out@) + tokens_from(b@, end as int) =~= prev + tokens_from(
                    b@,
                    i as int,
                ));
            }
            i = end;
        } else if lit_at(b, i, &tb) {
            out.push(Token { start: i, end: i + 4, kind: TokenKind::Literal });
            proof {
                assert(token_view(out@) =~= prev.push((i as int, i + 4, TokenKind::Literal)));
                assert(token_view(out@) + tokens_from(b@, i + 4) =~= prev + tokens_from(
                    b@,
                    i as int,
                ));
            }
            i = i + 4;
        } else if lit_at(b, i, &fb) {
            out.push(Token { start: i, end: i + 5, kind: TokenKind::Literal });
            proof {
                assert(token_view(out@) =~= prev.push((i as int, i + 5, TokenKind::Literal)));
                assert(token_view(out@) + tokens_from(b@, i + 5) =~= prev + tokens_from(
                    b@,
                    i as int,
                ));
            }
            i = i + 5;
        } else if lit_at(b, i, &nb) {
            out.push(Token { start: i, end: i + 4, kind: TokenKind::Literal });
            proof {
                assert(token_view(out@) =~= prev.push((i as int, i + 4, TokenKind::Literal)));
                assert(token_view(out@) + tokens_from(b@, i + 4) =~= prev + tokens_from(
                    b@,
                    i as int,
                ));
            }
            i = i + 4;
        } else {
            out.push(Token { start: i, end: i + 1, kind: TokenKind::Plain });
            proof {
                assert(token_view(out@) =~= prev.push((i as int, i + 1, TokenKind::Plain)));
                assert(token_view(out@) + tokens_from(b@, i + 1) =~= prev + tokens_from(
                    b@,
                    i as int,
                ));
            }
            i = i + 1;
        }
    }
    assert(token_view(out@) =~= token_view(out@) + tokens_from(b@, i as int));
    out
}

// ---------------------------------------------------------------------------
// Lines of the pretty text
// ---------------------------------------------------------------------------

/// `l` without one trailing carriage return.
pub open spec fn strip_cr(l: Seq<char>) -> Seq<char> {
    if l.len() > 0 && l.last() == '\r' {
        l.drop_last()
    } else {
        l
    }
}

/// The lines of `s` from the line that starts at `start`, scanning at `i` (`str::lines`: split
/// at `'\n'`, one `'\r'` before it dropped, no empty line after a final `'\n'`).
pub open spec fn lines_from(s: Seq<char>, start: int, i: int) -> Seq<Seq<char>>
    decreases s.len() - i,
{
    if i < 0 || i >= s.len() {
        if 0 <= start < s.len() {
            seq![s.subrange(start, s.len() as int)]
        } else {
            seq![]
        }
    } else if s[i] == '\n' {
        seq![strip_cr(s.subrange(start, i))] + lines_from(s, i + 1, i + 1)
    } else {
        lines_from(s, start, i + 1)
    }
}

/// `str::lines`.
pub open spec fn text_lines(s: Seq<char>) -> Seq<Seq<char>> {
    lines_from(s, 0, 0)
}

/// The strings' characters.
pub open spec fn strings_view(v: Seq<String>) -> Seq<Seq<char>> {
    v.map_values(|x: String| x@)
}

fn chars_to_string(cs: &Vec<char>, a: usize, b: usize) -> (out: String)
    requires
        a <= b <= cs@.len(),
    ensures
        out@ == cs@.subrange(a as int, b as int),
{
    let mut v: Vec<char> = Vec::new();
    let mut k: usize = a;
    while k < b
        invariant
            a <= k <= b <= cs@.len(),
            v@ == cs@.subrange(a as int, k as int),
        decreases b - k,
    {
        v.push(cs[k]);
        k += 1;
        assert(v@ =~= cs@.subrange(a as int, k as int));
    }
    string_from_chars(v.as_slice())
}

/// The lines of `s` (`str::lines`).
pub fn split_text_lines(s: &str) -> (out: Vec<String>)
    ensures
        strings_view(out@) == text_lines(s@),
{
    let cs = chars_of(s);
    let mut out: Vec<String> = Vec::new();
    let mut start: usize = 0;
    let mut i: usize = 0;
    while i < cs.len()
        invariant
            cs@ == s@,
            start <= i <= cs@.len(),
            strings_view(out@) + lines_from(s@, start as int, i as int) == text_lines(s@),
        decreases cs@.len() - i,
    {
        if cs[i] == '\n' {
            let mut end = i;
            if end > start && cs[end - 1] == '\r' {
                end = end - 1;
            }
            let line = chars_to_string(&cs, start, end);
            let ghost prev = strings_view(out@);
            out.push(line);
            proof {
                assert(s@.subrange(start as int, end as int) =~= strip_cr(
                    s@.subrange(start as int, i as int),
                ));
                assert(strings_view(out@) =~= prev.push(strip_cr(s@.subrange(start as int, i as int))));
                assert(strings_view(out@) + lines_from(s@, i + 1, i + 1) =~= prev + lines_from(
                    s@,
                    start as int,
                    i as int,
                ));
            }
            start = i + 1;
        }
        i += 1;
    }
    if start < cs.len() {
        let line = chars_to_string(&cs, start, cs.len());
        let ghost prev = strings_view(out@);
        out.push(line);
        assert(strings_view(out@) =~= prev + lines_from(s@, start as int, i as int));
    } else {
        assert(strings_view(out@) =~= strings_view(out@) + lines_from(
            s@,
            start as int,
            i as int,
        ));
    }
    out
}

/// One line of the response and its highlighted pieces.
#[derive(Debug, Clone)]
pub struct HighlightedLine {
    pub text: String,
    pub tokens: Vec<Token>,
}

/// The highlighted lines of `text`: its lines, each with its tokens; one empty line when the
/// text has none.
pub open spec fn highlighted_ok(text: Seq<char>, out: Seq<HighlightedLine>) -> bool {
    let ls = text_lines(text);
    if ls.len() == 0 {
        out.len() == 1 && out[0].text@.len() == 0 && out[0].tokens@.len() == 0
    } else {
        &&& out.len() == ls.len()
        &&& forall|i: int|
            0 <= i < ls.len() ==> (#[trigger] out[i]).text@ == ls[i] && token_view(out[i].tokens@)
                == tokens_from(vstd::utf8::encode_utf8(ls[i]), 0)
    }
}

/// Split the pretty text into lines and highlight each.
pub fn highlight_json_lines(text: &str) -> (out: Vec<HighlightedLine>)
    ensures
        highlighted_ok(text@, out@),
{
    let lines = split_text_lines(text);
    let mut out: Vec<HighlightedLine> = Vec::new();
    let mut i: usize = 0;
    while i < lines.len()
        invariant
            strings_view(lines@) == text_lines(text@),
            i <= lines@.len(),
            out@.len() == i,
            forall|k: int|
                0 <= k < i ==> (#[trigger] out@[k]).text@ == text_lines(text@)[k] && token_view(
                    out@[k].tokens@,
                ) == tokens_from(vstd::utf8::encode_utf8(text_lines(text@)[k]), 0),
        decreases lines@.len() - i,
    {
        let l = &lines[i];
        assert(l@ == text_lines(text@)[i as int]) by {
            assert(strings_view(lines@)[i as int] == lines@[i as int]@);
        }
        let tokens = highlight_json_line(l.as_str().as_bytes());
        out.push(HighlightedLine { text: string_of(l.as_str()), tokens });
        i += 1;
    }
    if out.len() == 0 {
        out.push(HighlightedLine { text: String::new(), tokens: Vec::new() });
    }
    out
}

// ---------------------------------------------------------------------------
// Image URLs and the items table
// ---------------------------------------------------------------------------

/// Members whose string values are image URLs.
pub open spec fn image_key(k: Seq<char>) -> bool {
    k == "url_cover"@ || k == "url_logo"@ || (seq_starts_with(k, "url_"@) && seq_contains(
        k,
        "cover"@,
    ))
}

/// The non-empty image URLs in `v`, depth first, members and items in order.
pub open spec fn image_urls(v: JsonValue) -> Seq<Seq<char>>
    decreases v,
{
    match v {
        JsonValue::Object(es) => member_urls(es@),
        JsonValue::Array(items) => item_urls(items@),
        _ => seq![],
    }
}

pub open spec fn item_urls(s: Seq<JsonValue>) -> Seq<Seq<char>>
    decreases s,
{
    if s.len() == 0 {
        seq![]
    } else {
        item_urls(s.subrange(0, s.len() - 1)) + image_urls(s[s.len() - 1])
    }
}

/// The URL that member `m` itself names, if any.
pub open spec fn own_url(m: (String, JsonValue)) -> Seq<Seq<char>> {
    if image_key(m.0@) && m.1 is Str && m.1->Str_0@.len() > 0 {
        seq![m.1->Str_0@]
    } else {
        seq![]
    }
}

pub open spec fn member_urls(s: Seq<(String, JsonValue)>) -> Seq<Seq<char>>
    decreases s,
{
    if s.len() == 0 {
        seq![]
    } else {
        member_urls(s.subrange(0, s.len() - 1)) + own_url(s[s.len() - 1]) + image_urls(
            s[s.len() - 1].1,
        )
    }
}

fn is_image_key(k: &str) -> (b: bool)
    ensures
        b == image_key(k@),
{
    str_eq(k, "url_cover") || str_eq(k, "url_logo") || (str_starts_with(k, "url_")
        && str_contains(k, "cover"))
}

fn collect_urls(v: &JsonValue, out: &mut Vec<String>)
    ensures
        strings_view(final(out)@) == strings_view(old(out)@) + image_urls(*v),
    decreases v,
{
    match v {
        JsonValue::Object(es) => {
            let mut i: usize = 0;
            assert(strings_view(out@) =~= strings_view(old(out)@) + member_urls(
                es@.subrange(0, 0),
            ));
            while i < es.len()
                invariant
                    i <= es@.len(),
                    *v == JsonValue::Object(*es),
                    strings_view(out@) == strings_view(old(out)@) + member_urls(
                        es@.subrange(0, i as int),
                    ),
                decreases es@.len() - i,
            {
                let ghost nxt = es@.subrange(0, i + 1);
                assert(nxt.subrange(0, nxt.len() - 1) =~= es@.subrange(0, i as int));
                assert(nxt[nxt.len() - 1] == es@[i as int]);
                let ghost before = strings_view(out@);
                if is_image_key(es[i].0.as_str()) {
                    match &es[i].1 {
                        JsonValue::Str(t) => {
                            if !t.as_str().is_empty() {
                                out.push(string_of(t.as_str()));
                            }
                        },
                        _ => {},
                    }
                }
                assert(strings_view(out@) =~= before + own_url(es@[i as int]));
                proof {
                    assert(decreases_to!(*v => v->Object_0));
                    assert(decreases_to!(v->Object_0 => v->Object_0@));
                    assert(decreases_to!(v->Object_0@ => v->Object_0@[i as int]));
                    assert(decreases_to!(v->Object_0@[i as int] => v->Object_0@[i as int].1));
                }
                collect_urls(&es[i].1, out);
                i += 1;
                assert(strings_view(out@) =~= strings_view(old(out)@) + member_urls(
                    es@.subrange(0, i as int),
                ));
            }
            assert(es@.subrange(0, es@.len() as int) =~= es@);
        },
        JsonValue::Array(items) => {
            let mut i: usize = 0;
            assert(strings_view(out@) =~= strings_view(old(out)@) + item_urls(
                items@.subrange(0, 0),
            ));
            while i < items.len()
                invariant
                    i <= items@.len(),
                    *v == JsonValue::Array(*items),
                    strings_view(out@) == strings_view(old(out)@) + item_urls(
                        items@.subrange(0, i as int),
                    ),
                decreases items@.len() - i,
            {
                let ghost nxt = items@.subrange(0, i + 1);
                assert(nxt.subrange(0, nxt.len() - 1) =~= items@.subrange(0, i as int));
                assert(nxt[nxt.len() - 1] == items@[i as int]);
                proof {
                    assert(decreases_to!(*v => v->Array_0));
                    assert(decreases_to!(v->Array_0 => v->Array_0@));
                    assert(decreases_to!(v->Array_0@ => v->Array_0@[i as int]));
                }
                collect_urls(&items[i], out);
                i += 1;
                assert(strings_view(out@) =~= strings_view(old(out)@) + item_urls(
                    items@.subrange(0, i as int),
                ));
            }
            assert(items@.subrange(0, items@.len() as int) =~= items@);
        },
        _ => {
            assert(strings_view(out@) =~= strings_view(old(out)@) + image_urls(*v));
        },
    }
}

/// The non-empty image URLs anywhere in `value`.
pub fn collect_image_urls(value: &JsonValue) -> (urls: Vec<String>)
    ensures
        strings_view(urls@) == image_urls(*value),
{
    let mut urls: Vec<String> = Vec::new();
    collect_urls(value, &mut urls);
    assert(strings_view(urls@) =~= image_urls(*value));
    urls
}

/// The `items` array of an object response and how many rows the table shows: the `total`
/// member when it is a 64-bit count, else the number of items, at most the number of items.
pub open spec fn spec_items(v: JsonValue) -> Option<Seq<JsonValue>> {
    match json_get(v, "items"@) {
        Some(JsonValue::Array(items)) => Some(items@),
        _ => None,
    }
}

pub open spec fn spec_row_count(v: JsonValue) -> nat {
    match spec_items(v) {
        Some(items) => {
            let total: nat = match json_u64(json_get(v, "total"@)) {
                Some(t) => t as nat,
                None => items.len(),
            };
            if total < items.len() {
                total
            } else {
                items.len()
            }
        },
        None => 0,
    }
}

/// The table's row count and the `items` array.
pub fn items_from_value(v: &JsonValue) -> (r: (usize, Option<&Vec<JsonValue>>))
    ensures
        r.0 == spec_row_count(*v),
        match r.1 {
            Some(items) => spec_items(*v) == Some(items@),
            None => spec_items(*v) is None,
        },
{
    if !v.is_object() {
        return (0, None);
    }
    let items = match v.get("items") {
        Some(JsonValue::Array(arr)) => arr,
        _ => {
            return (0, None);
        },
    };
    let n = items.len();
    let count = match v.get("total") {
        Some(t) => match t.as_u64() {
            Some(total) => if total < n as u64 {
                total as usize
            } else {
                n
            },
            None => n,
        },
        None => n,
    };
    (count, Some(items))
}

/// A member of `row` if `row` is an object.
pub open spec fn field(row: JsonValue, key: Seq<char>) -> Option<JsonValue> {
    json_get(row, key)
}

/// The first present member among `keys` (present, whatever its type).
pub open spec fn first_present(row: JsonValue, a: Seq<char>, b: Seq<char>) -> Option<JsonValue> {
    match field(row, a) {
        Some(x) => Some(x),
        None => field(row, b),
    }
}

/// The image URL of a table row: its `url_cover`, else its `url_logo`, when that is a string.
pub open spec fn row_image_url(row: JsonValue) -> Option<Seq<char>> {
    if row is Object {
        crate::json::json_str(first_present(row, "url_cover"@, "url_logo"@))
    } else {
        None
    }
}

/// The response view.
pub struct ResultScreen {
    pub raw: JsonValue,
    pub result_text: String,
    pub highlighted_lines: Vec<HighlightedLine>,
    pub scroll: usize,
    pub view_mode: ResultViewMode,
    pub table_selected: usize,
    pub table_row_count: usize,
    pub message: Option<String>,
}

/// What `serde_json::to_string_pretty` prints for the JSON document whose compact text is
/// `compact` (two-space indentation, one member or element per line).
pub uninterp spec fn spec_pretty_json(compact: Seq<char>) -> Seq<char>;

/// `serde_json::to_string_pretty` of the document whose compact text is `compact`: the text
/// is read back with `serde_json::from_str` and printed pretty (falling back to its debug
/// form should printing fail). Claimed: the result is a function of the text alone, named
/// `spec_pretty_json`; nothing more is stated of it.
#[verifier::external_body]
fn pretty_json_text(compact: &str) -> (out: String)
    ensures
        out@ == spec_pretty_json(compact@),
{
    match serde_json::from_str::<serde_json::Value>(compact) {
        Ok(v) => serde_json::to_string_pretty(&v).unwrap_or_else(|_| format!("{v:?}")),
        Err(_) => compact.to_string(),
    }
}

impl ResultScreen {
    /// The view of `result`: its pretty JSON text, the text's highlighted lines, and the
    /// number of table rows.
    pub fn new(result: JsonValue) -> (s: ResultScreen)
        ensures
            s.raw == result,
            s.result_text@ == spec_pretty_json(crate::json::compact(result)),
            highlighted_ok(s.result_text@, s.highlighted_lines@),
            s.scroll == 0,
            s.view_mode == ResultViewMode::Json,
            s.table_selected == 0,
            s.table_row_count == spec_row_count(result),
            s.message is None,
    {
        let compact = result.to_compact_string();
        let pretty = pretty_json_text(compact.as_str());
        Self::with_text(result, pretty)
    }

    /// The view of `result`, whose pretty JSON text is `pretty`.
    pub fn with_text(result: JsonValue, pretty: String) -> (s: ResultScreen)
        ensures
            s.raw == result,
            s.result_text == pretty,
            highlighted_ok(pretty@, s.highlighted_lines@),
            s.scroll == 0,
            s.view_mode == ResultViewMode::Json,
            s.table_selected == 0,
            s.table_row_count == spec_row_count(result),
            s.message is None,
    {
        let highlighted_lines = highlight_json_lines(pretty.as_str());
        let (count, _) = items_from_value(&result);
        ResultScreen {
            raw: result,
            result_text: pretty,
            highlighted_lines,
            scroll: 0,
            view_mode: ResultViewMode::Json,
            table_selected: 0,
            table_row_count: count,
            message: None,
        }
    }

    /// The image URL to open: the first one in the response, or in table view the selected
    /// row's (the last row when the selection is past the end).
    pub open spec fn spec_selected_image_url(&self) -> Option<Seq<char>> {
        match self.view_mode {
            ResultViewMode::Json => {
                let urls = image_urls(self.raw);
                if urls.len() > 0 {
                    Some(urls[0])
                } else {
                    None
                }
            },
            ResultViewMode::Table => match spec_items(self.raw) {
                Some(items) => if items.len() == 0 {
                    None
                } else {
                    let i = if self.table_selected < items.len() - 1 {
                        self.table_selected as int
                    } else {
                        items.len() - 1
                    };
                    row_image_url(items[i])
                },
                None => None,
            },
        }
    }

    pub fn get_selected_image_url(&self) -> (r: Option<String>)
        ensures
            match r {
                Some(u) => self.spec_selected_image_url() == Some(u@),
                None => self.spec_selected_image_url() is None,
            },
    {
        match self.view_mode {
            ResultViewMode::Json => {
                let urls = collect_image_urls(&self.raw);
                if urls.len() > 0 {
                    assert(strings_view(urls@)[0] == urls@[0]@);
                    Some(string_of(urls[0].as_str()))
                } else {
                    None
                }
            },
            ResultViewMode::Table => {
                let (_, items_opt) = items_from_value(&self.raw);
                let items = match items_opt {
                    Some(arr) => arr,
                    None => {
                        return None;
                    },
                };
                if items.len() == 0 {
                    return None;
                }
                let i = if self.table_selected < items.len() - 1 {
                    self.table_selected
                } else {
                    items.len() - 1
                };
                let row = &items[i];
                if !row.is_object() {
                    return None;
                }
                let v = match row.get("url_cover") {
                    Some(x) => Some(x),
                    None => row.get("url_logo"),
                };
                match v {
                    Some(x) => match x.as_str() {
                        Some(t) => Some(string_of(t.as_str())),
                        None => None,
                    },
                    None => None,
                }
            },
        }
    }

    /// Scroll the JSON down by `amount` lines, stopping at the last line.
    pub fn scroll_down(&mut self, amount: usize)
        requires
            old(self).scroll + amount <= usize::MAX,
        ensures
            *final(self) == (ResultScreen {
                scroll: if old(self).scroll + amount < old(self).highlighted_lines@.len() - 1 {
                    (old(self).scroll + amount) as usize
                } else if old(self).highlighted_lines@.len() > 0 {
                    (old(self).highlighted_lines@.len() - 1) as usize
                } else {
                    0
                },
                ..*old(self)
            }),
    {
        let n = self.highlighted_lines.len();
        let max_scroll = if n > 0 {
            n - 1
        } else {
            0
        };
        let want = self.scroll + amount;
        self.scroll = if want < max_scroll {
            want
        } else {
            max_scroll
        };
    }

    /// Scroll the JSON up by `amount` lines, stopping at the top.
    pub fn scroll_up(&mut self, amount: usize)
        ensures
            *final(self) == (ResultScreen {
                scroll: if old(self).scroll > amount {
                    (old(self).scroll - amount) as usize
                } else {
                    0
                },
                ..*old(self)
            }),
    {
        self.scroll = if self.scroll > amount {
            self.scroll - amount
        } else {
            0
        };
    }

    /// Next table row, wrapping.
    pub fn table_next(&mut self)
        requires
            old(self).table_selected < usize::MAX,
        ensures
            *final(self) == (ResultScreen {
                table_selected: if old(self).table_row_count > 0 {
                    ((old(self).table_selected + 1) % (old(self).table_row_count as int)) as usize
                } else {
                    old(self).table_selected
                },
                ..*old(self)
            }),
    {
        if self.table_row_count > 0 {
            self.table_selected = (self.table_selected + 1) % self.table_row_count;
        }
    }

    /// Previous table row, wrapping.
    pub fn table_previous(&mut self)
        ensures
            *final(self) == (ResultScreen {
                table_selected: if old(self).table_row_count == 0 {
                    old(self).table_selected
                } else if old(self).table_selected == 0 {
                    (old(self).table_row_count - 1) as usize
                } else {
                    (old(self).table_selected - 1) as usize
                },
                ..*old(self)
            }),
    {
        if self.table_row_count > 0 {
            self.table_selected = if self.table_selected == 0 {
                self.table_row_count - 1
            } else {
                self.table_selected - 1
            };
        }
    }

    /// Ten rows up, stopping at the first.
    pub fn table_page_up(&mut self)
        ensures
            *final(self) == (ResultScreen {
                table_selected: if old(self).table_selected > 10 {
                    (old(self).table_selected - 10) as usize
                } else {
                    0
                },
                ..*old(self)
            }),
    {
        self.table_selected = if self.table_selected > 10 {
            self.table_selected - 10
        } else {
            0
        };
    }

    /// Ten rows down, stopping at the last.
    pub fn table_page_down(&mut self)
        requires
            old(self).table_selected + 10 <= usize::MAX,
        ensures
            *final(self) == (ResultScreen {
                table_selected: if old(self).table_row_count == 0 {
                    old(self).table_selected
                } else if old(self).table_selected + 10 < old(self).table_row_count - 1 {
                    (old(self).table_selected + 10) as usize
                } else {
                    (old(self).table_row_count - 1) as usize
                },
                ..*old(self)
            }),
    {
        if self.table_row_count > 0 {
            let want = self.table_selected + 10;
            let last = self.table_row_count - 1;
            self.table_selected = if want < last {
                want
            } else {
                last
            };
        }
    }

    /// Switch between JSON and table (the table only when it has rows); the selection resets.
    pub fn switch_view_mode(&mut self)
        ensures
            *final(self) == (ResultScreen {
                view_mode: if old(self).view_mode == ResultViewMode::Json
                    && old(self).table_row_count > 0 {
                    ResultViewMode::Table
                } else {
                    ResultViewMode::Json
                },
                table_selected: 0,
                ..*old(self)
            }),
    {
        self.view_mode = match self.view_mode {
            ResultViewMode::Json => if self.table_row_count > 0 {
                ResultViewMode::Table
            } else {
                ResultViewMode::Json
            },
            ResultViewMode::Table => ResultViewMode::Json,
        };
        self.table_selected = 0;
    }

    /// Start opening the selected image URL: the message clears, or says that there is none.
    pub fn open_selected_target(&mut self) -> (url: Option<String>)
        ensures
            match url {
                Some(u) => old(self).spec_selected_image_url() == Some(u@) && *final(self) == (
                ResultScreen { message: None, ..*old(self) }),
                None => {
                    &&& old(self).spec_selected_image_url() is None
                    &&& final(self).message matches Some(m) && m@ == "No image URL in result"@
                    &&& *final(self) == (ResultScreen { message: final(self).message, ..*old(self) })
                },
            },
    {
        self.message = None;
        match self.get_selected_image_url() {
            Some(u) => Some(u),
            None => {
                self.message = Some(string_of("No image URL in result"));
                None
            },
        }
    }

    /// The browser was asked to open the URL: the message tells how that went.
    pub fn open_finished(&mut self, result: Result<(), String>)
        ensures
            match result {
                Ok(()) => final(self).message matches Some(m) && m@ == "Opened in browser"@,
                Err(e) => final(self).message matches Some(m) && m@ == "Failed to open: "@ + e@,
            },
            *final(self) == (ResultScreen { message: final(self).message, ..*old(self) }),
    {
        match result {
            Ok(()) => {
                self.message = Some(string_of("Opened in browser"));
            },
            Err(e) => {
                self.message = Some(concat("Failed to open: ", e.as_str()));
            },
        }
    }

    pub fn clear_message(&mut self)
        ensures
            *final(self) == (ResultScreen { message: None, ..*old(self) }),
    {
        self.message = None;
    }

    /// The footer: the message, else the key help of the view.
    pub fn footer_text(&self) -> (t: String)
        ensures
            t@ == match self.message {
                Some(m) => m@,
                None => match self.view_mode {
                    ResultViewMode::Json => "j: JSON | t: Table | o: Open image | ↑↓: Scroll | Esc: Back"@,
                    ResultViewMode::Table => "j: JSON | t: Table | o: Open image | ↑↓: Row | Esc: Back"@,
                },
            },
    {
        match &self.message {
            Some(m) => string_of(m.as_str()),
            None => match self.view_mode {
                ResultViewMode::Json => string_of(
                    "j: JSON | t: Table | o: Open image | ↑↓: Scroll | Esc: Back",
                ),
                ResultViewMode::Table => string_of(
                    "j: JSON | t: Table | o: Open image | ↑↓: Row | Esc: Back",
                ),
            },
        }
    }
}

/// The rows of the table that fit: `height` minus borders and header (at least one row),
/// scrolled so that the selection is the last visible row once it passes the first screen.
pub open spec fn spec_table_window(selected: usize, len: usize, height: u16) -> (int, int) {
    let visible: int = if height as int - 3 > 1 {
        height as int - 3
    } else {
        1
    };
    let max_start: int = if len > visible {
        len - visible
    } else {
        0
    };
    let want: int = if selected + 1 > visible {
        selected + 1 - visible
    } else {
        0
    };
    let start = if want < max_start {
        want
    } else {
        max_start
    };
    let end = if start + visible < len {
        start + visible
    } else {
        len as int
    };
    (start, end)
}

/// The first and one-past-last table rows that the view shows.
pub fn table_window(selected: usize, len: usize, height: u16) -> (r: (usize, usize))
    requires
        selected < usize::MAX,
    ensures
        (r.0 as int, r.1 as int) == spec_table_window(selected, len, height),
        r.0 <= r.1 <= len,
{
    let h = height as usize;
    let visible: usize = if h > 4 {
        h - 3
    } else {
        1
    };
    let max_start = if len > visible {
        len - visible
    } else {
        0
    };
    let want = if selected + 1 > visible {
        selected + 1 - visible
    } else {
        0
    };
    let start = if want < max_start {
        want
    } else {
        max_start
    };
    let end = if start < len && visible < len - start {
        start + visible
    } else {
        len
    };
    (start, end)
}

/// The platform name of a table row: the first present of its display, custom and plain
/// platform names, when that is a non-empty string.
pub open spec fn row_platform_name(row: JsonValue) -> Option<Seq<char>> {
    let v = match field(row, "platform_display_name"@) {
        Some(x) => Some(x),
        None => first_present(row, "platform_custom_name"@, "platform_name"@),
    };
    match crate::json::json_str(v) {
        Some(t) => if t.len() > 0 {
            Some(t)
        } else {
            None
        },
        None => None,
    }
}

/// The cells of one table row: id, name, platform, and whether it has an image.
pub open spec fn spec_row_cells(row: JsonValue) -> (Seq<char>, Seq<char>, Seq<char>, Seq<char>) {
    let id = json_u64(field(row, "id"@));
    let pid = json_u64(field(row, "platform_id"@));
    (
        match id {
            Some(n) => crate::text::decimal(n as nat),
            None => "-"@,
        },
        match crate::json::json_str(field(row, "name"@)) {
            Some(t) => t,
            None => ""@,
        },
        match (row_platform_name(row), pid) {
            (Some(nm), Some(p)) => nm + " ("@ + crate::text::decimal(p as nat) + ")"@,
            (None, Some(p)) => "("@ + crate::text::decimal(p as nat) + ")"@,
            _ => "-"@,
        },
        if first_present(row, "url_cover"@, "url_logo"@) is Some {
            "[IMG]"@
        } else {
            "-"@
        },
    )
}

fn first_present_exec<'a>(row: &'a JsonValue, a: &str, b: &str) -> (r: Option<&'a JsonValue>)
    ensures
        match r {
            Some(x) => first_present(*row, a@, b@) == Some(*x),
            None => first_present(*row, a@, b@) is None,
        },
{
    match row.get(a) {
        Some(x) => Some(x),
        None => row.get(b),
    }
}

/// The cells of one table row (see `spec_row_cells`).
pub fn table_row_cells(row: &JsonValue) -> (r: (String, String, String, &'static str))
    ensures
        (r.0@, r.1@, r.2@, r.3@) == spec_row_cells(*row),
{
    let id = match row.get("id") {
        Some(v) => v.as_u64(),
        None => None,
    };
    let pid = match row.get("platform_id") {
        Some(v) => v.as_u64(),
        None => None,
    };
    let id_text = match id {
        Some(n) => crate::text::u64_to_decimal(n),
        None => string_of("-"),
    };
    let name = match row.get("name") {
        Some(v) => match v.as_str() {
            Some(t) => string_of(t.as_str()),
            None => string_of(""),
        },
        None => string_of(""),
    };
    let pv = match row.get("platform_display_name") {
        Some(x) => Some(x),
        None => first_present_exec(row, "platform_custom_name", "platform_name"),
    };
    let pname: Option<String> = match pv {
        Some(x) => match x.as_str() {
            Some(t) => if t.as_str().is_empty() {
                None
            } else {
                Some(string_of(t.as_str()))
            },
            None => None,
        },
        None => None,
    };
    let ptext = match (pname, pid) {
        (Some(nm), Some(p)) => {
            let d = crate::text::u64_to_decimal(p);
            let a = concat(nm.as_str(), " (");
            let b = concat(a.as_str(), d.as_str());
            concat(b.as_str(), ")")
        },
        (None, Some(p)) => {
            let d = crate::text::u64_to_decimal(p);
            let a = concat("(", d.as_str());
            concat(a.as_str(), ")")
        },
        _ => string_of("-"),
    };
    let cover = if first_present_exec(row, "url_cover", "url_logo").is_some() {
        "[IMG]"
    } else {
        "-"
    };
    (id_text, name, ptext, cover)
}

/// What the front end does after a key on the response view.
#[derive(Debug, Clone, Copy, PartialEq, Eq, Structural)]
pub enum ResultAction {
    Nothing,
    /// Show the selected table row on its own.
    OpenItem(usize),
    /// Back to the endpoint browser.
    Back,
    Quit,
}

impl ResultScreen {
    /// What `handle_key` does: scrolling in JSON view, row moves in table view.
    pub open spec fn key_post(o: ResultScreen, n: ResultScreen, code: KeyCode, a: ResultAction) -> bool {
        let json = o.view_mode == ResultViewMode::Json;
        let lines = o.highlighted_lines@.len();
        let down = |k: int|
            if o.scroll + k < lines - 1 {
                (o.scroll + k) as usize
            } else if lines > 0 {
                (lines - 1) as usize
            } else {
                0usize
            };
        let up = |k: int|
            if o.scroll > k {
                (o.scroll - k) as usize
            } else {
                0usize
            };
        let rows = o.table_row_count;
        let sel = o.table_selected;
        if code is Up || code == KeyCode::Char('k') {
            a is Nothing && n == if json {
                ResultScreen { scroll: up(1), ..o }
            } else {
                ResultScreen {
                    table_selected: if rows == 0 {
                        sel
                    } else if sel == 0 {
                        (rows - 1) as usize
                    } else {
                        (sel - 1) as usize
                    },
                    ..o
                }
            }
        } else if code is Down {
            a is Nothing && n == if json {
                ResultScreen { scroll: down(1), ..o }
            } else {
                ResultScreen {
                    table_selected: if rows > 0 {
                        ((sel + 1) % (rows as int)) as usize
                    } else {
                        sel
                    },
                    ..o
                }
            }
        } else if code == KeyCode::Char('j') && json {
            a is Nothing && n == (ResultScreen { scroll: down(1), ..o })
        } else if code is PageUp {
            a is Nothing && n == if json {
                ResultScreen { scroll: up(10), ..o }
            } else {
                ResultScreen {
                    table_selected: if sel > 10 {
                        (sel - 10) as usize
                    } else {
                        0
                    },
                    ..o
                }
            }
        } else if code is PageDown {
            a is Nothing && n == if json {
                ResultScreen { scroll: down(10), ..o }
            } else {
                ResultScreen {
                    table_selected: if rows == 0 {
                        sel
                    } else if sel + 10 < rows - 1 {
                        (sel + 10) as usize
                    } else {
                        (rows - 1) as usize
                    },
                    ..o
                }
            }
        } else if code == KeyCode::Char('t') && rows > 0 {
            a is Nothing && n == (ResultScreen {
                view_mode: if json {
                    ResultViewMode::Table
                } else {
                    ResultViewMode::Json
                },
                table_selected: 0,
                ..o
            })
        } else if code is Enter && !json && rows > 0 {
            a == ResultAction::OpenItem(sel) && n == o
        } else if code is Esc {
            a is Back && n == (ResultScreen { message: None, ..o })
        } else if code == KeyCode::Char('q') {
            a is Quit && n == o
        } else {
            a is Nothing && n == o
        }
    }

    /// One key on the response view.
    pub fn handle_key(&mut self, code: KeyCode) -> (a: ResultAction)
        requires
            old(self).scroll + 10 <= usize::MAX,
            old(self).table_selected + 10 <= usize::MAX,
        ensures
            Self::key_post(*old(self), *final(self), code, a),
    {
        let json = self.view_mode == ResultViewMode::Json;
        match code {
            KeyCode::Up | KeyCode::Char('k') => {
                if json {
                    self.scroll_up(1);
                } else {
                    self.table_previous();
                }
                ResultAction::Nothing
            },
            KeyCode::Down => {
                if json {
                    self.scroll_down(1);
                } else {
                    self.table_next();
                }
                ResultAction::Nothing
            },
            KeyCode::Char('j') if json => {
                self.scroll_down(1);
                ResultAction::Nothing
            },
            KeyCode::PageUp => {
                if json {
                    self.scroll_up(10);
                } else {
                    self.table_page_up();
                }
                ResultAction::Nothing
            },
            KeyCode::PageDown => {
                if json {
                    self.scroll_down(10);
                } else {
                    self.table_page_down();
                }
                ResultAction::Nothing
            },
            KeyCode::Char('t') if self.table_row_count > 0 => {
                self.switch_view_mode();
                ResultAction::Nothing
            },
            KeyCode::Enter if !json && self.table_row_count > 0 => {
                ResultAction::OpenItem(self.table_selected)
            },
            KeyCode::Esc => {
                self.clear_message();
                ResultAction::Back
            },
            KeyCode::Char('q') => ResultAction::Quit,
            _ => ResultAction::Nothing,
        }
    }
}

/// In the table, the next row and then the previous row lead back to the selected row.
pub proof fn lemma_table_next_then_previous(rows: usize, sel: usize)
    requires
        0 < rows,
        sel < rows,
    ensures
        ({
            let next = ((sel + 1) % (rows as int)) as usize;
            let back = if next == 0 {
                (rows - 1) as usize
            } else {
                (next - 1) as usize
            };
            back == sel
        }),
{
    let next = (sel + 1) % (rows as int);
    if sel + 1 < rows {
        assert(next == sel + 1) by (nonlinear_arith)
            requires
                0 <= sel + 1 < rows,
                next == (sel + 1) % (rows as int),
        ;
    } else {
        assert(next == 0) by (nonlinear_arith)
            requires
                sel + 1 == rows,
                rows > 0,
                next == (sel + 1) % (rows as int),
        ;
    }
}


/// The pieces `ts` lie one after the other, each non-empty, from `from` up to `to`.
pub open spec fn tiles(ts: Seq<(int, int, TokenKind)>, from: int, to: int) -> bool
    decreases ts.len(),
{
    if ts.len() == 0 {
        from == to
    } else {
        &&& ts[0].0 == from
        &&& ts[0].0 < ts[0].1
        &&& tiles(ts.drop_first(), ts[0].1, to)
    }
}

proof fn lemma_number_end_bounds(b: Seq<u8>, j: int)
    requires
        0 <= j <= b.len(),
    ensures
        j <= number_end(b, j) <= b.len(),
    decreases b.len() - j,
{
    if j < b.len() && is_number_byte(b[j]) {
        lemma_number_end_bounds(b, j + 1);
    }
}

/// Highlighting cuts a line into pieces that follow one another and cover it exactly: no
/// byte is dropped or shown twice.
pub proof fn lemma_tokens_tile_line(b: Seq<u8>, i: int)
    requires
        0 <= i <= b.len(),
    ensures
        tiles(tokens_from(b, i), i, b.len() as int),
    decreases b.len() - i,
{
    let ts = tokens_from(b, i);
    if i < b.len() {
        if b[i] == 34 {
            lemma_string_end_bounds(b, i + 1);
            let e = string_end(b, i + 1);
            lemma_tokens_tile_line(b, e);
            assert(ts.drop_first() =~= tokens_from(b, e));
        } else if number_starts(b, i) {
            let j = if b[i] == 45 {
                i + 1
            } else {
                i
            };
            lemma_number_end_bounds(b, j);
            let e = number_end(b, j);
            assert(is_number_byte(b[j]));
            assert(e == number_end(b, j + 1));
            lemma_number_end_bounds(b, j + 1);
            assert(i < e);
            lemma_tokens_tile_line(b, e);
            assert(ts.drop_first() =~= tokens_from(b, e));
        } else if literal_at(b, i, true_bytes()) {
            lemma_tokens_tile_line(b, i + 4);
            assert(ts.drop_first() =~= tokens_from(b, i + 4));
        } else if literal_at(b, i, false_bytes()) {
            lemma_tokens_tile_line(b, i + 5);
            assert(ts.drop_first() =~= tokens_from(b, i + 5));
        } else if literal_at(b, i, null_bytes()) {
            lemma_tokens_tile_line(b, i + 4);
            assert(ts.drop_first() =~= tokens_from(b, i + 4));
        } else {
            lemma_tokens_tile_line(b, i + 1);
            assert(ts.drop_first() =~= tokens_from(b, i + 1));
        }
    }
}


/// No line break is left inside a line.
pub open spec fn no_breaks(lines: Seq<Seq<char>>) -> bool {
    forall|k: int, j: int| 0 <= k < lines.len() && 0 <= j < lines[k].len() ==> #[trigger] lines[k][j]
        != '\n'
}

proof fn lemma_lines_from_no_breaks(s: Seq<char>, start: int, i: int)
    requires
        0 <= start <= i <= s.len(),
        forall|j: int| start <= j < i ==> s[j] != '\n',
    ensures
        no_breaks(lines_from(s, start, i)),
    decreases s.len() - i,
{
    let ls = lines_from(s, start, i);
    if i >= s.len() {
        if start < s.len() {
            assert(ls[0] =~= s.subrange(start, s.len() as int));
        }
    } else if s[i] == '\n' {
        lemma_lines_from_no_breaks(s, i + 1, i + 1);
        let first = strip_cr(s.subrange(start, i));
        assert forall|k: int, j: int| 0 <= k < ls.len() && 0 <= j < ls[k].len() implies #[trigger] ls[k][j]
            != '\n' by {
            if k == 0 {
                assert(ls[0] == first);
                assert(first[j] == s[start + j]);
            } else {
                assert(ls[k] == lines_from(s, i + 1, i + 1)[k - 1]);
            }
        }
    } else {
        lemma_lines_from_no_breaks(s, start, i + 1);
    }
}

/// The lines of a text hold no line break.
pub proof fn lemma_text_lines_no_breaks(s: Seq<char>)
    ensures
        no_breaks(text_lines(s)),
{
    lemma_lines_from_no_breaks(s, 0, 0);
}

} // verus!
