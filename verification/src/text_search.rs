//! Filter/jump search state and diacritic-insensitive substring matching
//! for the library list and ROM panes.

use vstd::prelude::*;
use unicode_normalization::UnicodeNormalization;
use crate::text::{chars_of, is_blank, occurs_at, seq_contains, spec_to_lowercase, str_contains, string_from_chars, string_push, to_lowercase, trim_spec};

verus! {

/// Filter vs jump mode (same semantics for consoles/collections list and games table).
#[derive(Debug, Clone, Copy, PartialEq, Eq, Structural)]
pub enum LibrarySearchMode {
    Filter,
    Jump,
}

/// Typing/filter state for one pane (list or ROMs).
#[derive(Debug, Clone)]
pub struct SearchState {
    pub mode: Option<LibrarySearchMode>,
    pub query: String,
    pub normalized_query: String,
    pub filter_browsing: bool,
}

// ---------------------------------------------------------------------------
// Normalization
// ---------------------------------------------------------------------------

/// Canonical (NFD) decomposition of a string, as computed by `unicode-normalization`.
pub uninterp spec fn spec_nfd(s: Seq<char>) -> Seq<char>;

/// Whether a character is a Unicode combining mark, as classified by `unicode-normalization`.
pub uninterp spec fn spec_is_combining_mark(c: char) -> bool;

/// Calls `UnicodeNormalization::nfd` on `s` and collects the decomposed characters.
/// The contract only names the result: it is the NFD decomposition of `s`.
#[verifier::external_body]
fn nfd_chars(s: &str) -> (out: Vec<char>)
    ensures
        out@ == spec_nfd(s@),
{
    s.nfd().collect()
}

/// Calls `unicode_normalization::char::is_combining_mark`; the result is named, not stated.
#[verifier::external_body]
fn is_combining_mark(c: char) -> (r: bool)
    ensures
        r == spec_is_combining_mark(c),
{
    unicode_normalization::char::is_combining_mark(c)
}

/// Keeps the characters that are not combining marks.
pub open spec fn strip_marks(s: Seq<char>) -> Seq<char> {
    s.filter(|c: char| !spec_is_combining_mark(c))
}

/// Diacritic-free lowercase form used for matching: NFD, drop combining marks, lowercase.
pub open spec fn normalize_spec(s: Seq<char>) -> Seq<char> {
    spec_to_lowercase(strip_marks(spec_nfd(s)))
}

/// Strip diacritics and lowercase for substring search.
pub fn normalize_label(s: &str) -> (out: String)
    ensures
        out@ == normalize_spec(s@),
{
    let d = nfd_chars(s);
    let mut kept: Vec<char> = Vec::new();
    let mut i: usize = 0;
    while i < d.len()
        invariant
            i <= d@.len(),
            kept@ == d@.take(i as int).filter(|c: char| !spec_is_combining_mark(c)),
        decreases d@.len() - i,
    {
        let c = d[i];
        proof {
            reveal_with_fuel(Seq::filter, 1);
            assert(d@.take(i + 1).drop_last() =~= d@.take(i as int));
        }
        if !is_combining_mark(c) {
            kept.push(c);
        }
        i += 1;
    }
    assert(d@.take(d@.len() as int) =~= d@);
    let stripped = string_from_chars(kept.as_slice());
    to_lowercase(stripped.as_str())
}

/// A label matches a normalized query when its normalized form contains the query.
pub open spec fn label_matches(label: Seq<char>, normalized_query: Seq<char>) -> bool {
    seq_contains(normalize_spec(label), normalized_query)
}

/// Whether `label` matches `normalized_query`.
pub fn label_matches_exec(label: &str, normalized_query: &str) -> (r: bool)
    ensures
        r == label_matches(label@, normalized_query@),
{
    let n = normalize_label(label);
    str_contains(n.as_str(), normalized_query)
}

/// The character sequences of a list of strings.
pub open spec fn views(labels: Seq<String>) -> Seq<Seq<char>> {
    labels.map_values(|s: String| s@)
}

/// Indices `i < n`, ascending, whose label matches the query.
pub open spec fn matching_indices(labels: Seq<Seq<char>>, q: Seq<char>, n: nat) -> Seq<usize>
    decreases n,
{
    if n == 0 {
        seq![]
    } else {
        let prev = matching_indices(labels, q, (n - 1) as nat);
        if label_matches(labels[n - 1], q) {
            prev.push((n - 1) as usize)
        } else {
            prev
        }
    }
}

/// Properties of `matching_indices`: ascending, in range, exactly the matches.
pub proof fn lemma_matching_indices(labels: Seq<Seq<char>>, q: Seq<char>, n: nat)
    requires
        n <= labels.len(),
        n <= usize::MAX + 1,
    ensures
        forall|j: int| 0 <= j < matching_indices(labels, q, n).len()
            ==> (#[trigger] matching_indices(labels, q, n)[j]) < n
            && label_matches(labels[matching_indices(labels, q, n)[j] as int], q),
        forall|j: int, k: int| 0 <= j < k < matching_indices(labels, q, n).len()
            ==> matching_indices(labels, q, n)[j] < matching_indices(labels, q, n)[k],
        forall|i: int| 0 <= i < n && label_matches(labels[i], q)
            ==> matching_indices(labels, q, n).contains(i as usize),
        matching_indices(labels, q, n).len() <= n,
    decreases n,
{
    if n > 0 {
        lemma_matching_indices(labels, q, (n - 1) as nat);
        let prev = matching_indices(labels, q, (n - 1) as nat);
        if label_matches(labels[n - 1], q) {
            let cur = prev.push((n - 1) as usize);
            assert forall|i: int| 0 <= i < n && label_matches(labels[i], q) implies cur.contains(
                i as usize,
            ) by {
                if i == n - 1 {
                    assert(cur[cur.len() - 1] == i as usize);
                } else {
                    let w = choose|w: int| 0 <= w < prev.len() && prev[w] == i as usize;
                    assert(cur[w] == i as usize);
                }
            }
        }
    }
}

/// When the query is empty every label matches.
pub proof fn lemma_empty_query_matches(label: Seq<char>, q: Seq<char>)
    requires
        q.len() == 0,
    ensures
        label_matches(label, q),
{
    assert(normalize_spec(label).subrange(0, 0) =~= q);
    assert(occurs_at(normalize_spec(label), q, 0));
}

/// Source indices into `labels` where the normalized label contains `normalized_query`,
/// ascending. An empty query keeps every index.
pub fn filter_source_indices(labels: &[String], normalized_query: &str) -> (out: Vec<usize>)
    ensures
        out@ == matching_indices(views(labels@), normalized_query@, labels@.len()),
{
    let ghost lv = views(labels@);
    let mut out: Vec<usize> = Vec::new();
    let mut i: usize = 0;
    while i < labels.len()
        invariant
            i <= labels@.len(),
            lv == views(labels@),
            out@ == matching_indices(lv, normalized_query@, i as nat),
        decreases labels@.len() - i,
    {
        let m = label_matches_exec(labels[i].as_str(), normalized_query);
        if m {
            out.push(i);
        }
        i += 1;
    }
    out
}

/// Where a jump search starts: the row after the selection, or the selection itself.
pub open spec fn jump_start(selected_source: int, len: int, next: bool) -> int {
    if next {
        (selected_source + 1) % len
    } else {
        selected_source
    }
}

/// The row visited `k` steps after the start, wrapping around.
pub open spec fn jump_row(selected_source: int, len: int, next: bool, k: int) -> int {
    (jump_start(selected_source, len, next) + k) % len
}

/// The next matching row of a jump search, if any.
pub open spec fn jump_next_spec(
    labels: Seq<Seq<char>>,
    selected_source: int,
    q: Seq<char>,
    next: bool,
) -> Option<int> {
    let len = labels.len() as int;
    if q.len() == 0 || len == 0 {
        None
    } else if exists|k: int| 0 <= k < len && label_matches(labels[jump_row(selected_source, len, next, k)], q) {
        let k = choose|k: int|
            0 <= k < len && label_matches(labels[jump_row(selected_source, len, next, k)], q) && (
            forall|j: int| 0 <= j < k ==> !label_matches(labels[jump_row(selected_source, len, next, j)], q));
        Some(jump_row(selected_source, len, next, k))
    } else {
        None
    }
}

/// `(start + i) % len` computed without leaving the range of `start` and `len`.
proof fn lemma_wrap_index(start: int, i: int, len: int)
    requires
        len > 0,
        start >= 0,
        0 <= i < len,
    ensures
        (if i >= len - start % len {
            i - (len - start % len)
        } else {
            start % len + i
        }) == (start + i) % len,
{
    vstd::arithmetic::div_mod::lemma_add_mod_noop(start, i, len);
    vstd::arithmetic::div_mod::lemma_small_mod(i as nat, len as nat);
    let off = start % len;
    vstd::arithmetic::div_mod::lemma_mod_bound(start, len);
    if off + i < len {
        vstd::arithmetic::div_mod::lemma_small_mod((off + i) as nat, len as nat);
    } else {
        vstd::arithmetic::div_mod::lemma_mod_sub_multiples_vanish(off + i, len);
        vstd::arithmetic::div_mod::lemma_small_mod((off + i - len) as nat, len as nat);
    }
}

/// Next matching row index in the full `labels` slice (jump search), wrapping.
pub fn jump_next_index(
    labels: &[String],
    selected_source: usize,
    normalized_query: &str,
    next: bool,
) -> (r: Option<usize>)
    requires
        next ==> selected_source < usize::MAX,
    ensures
        r matches Some(i) ==> jump_next_spec(
            views(labels@),
            selected_source as int,
            normalized_query@,
            next,
        ) == Some(i as int),
        r is None ==> jump_next_spec(
            views(labels@),
            selected_source as int,
            normalized_query@,
            next,
        ) is None,
{
    if normalized_query.is_empty() || labels.len() == 0 {
        return None;
    }
    let ghost lv = views(labels@);
    let len = labels.len();
    let start = if next {
        (selected_source + 1) % len
    } else {
        selected_source
    };
    assert(start == jump_start(selected_source as int, len as int, next));
    let mut i: usize = 0;
    while i < len
        invariant
            len == labels@.len(),
            len > 0,
            lv == views(labels@),
            start == jump_start(selected_source as int, len as int, next),
            normalized_query@.len() > 0,
            i <= len,
            forall|j: int| 0 <= j < i ==> !label_matches(
                lv[jump_row(selected_source as int, len as int, next, j)],
                normalized_query@,
            ),
        decreases len - i,
    {
        let off = start % len;
        let idx = if i >= len - off {
            i - (len - off)
        } else {
            off + i
        };
        proof {
            lemma_wrap_index(start as int, i as int, len as int);
        }
        assert(idx == jump_row(selected_source as int, len as int, next, i as int));
        if label_matches_exec(labels[idx].as_str(), normalized_query) {
            proof {
                lemma_jump_unique(lv, selected_source as int, normalized_query@, next, i as int);
            }
            return Some(idx);
        }
        i += 1;
    }
    proof {
        let lenv = len as int;
        assert(!(exists|k: int|
            0 <= k < lenv && label_matches(
                lv[jump_row(selected_source as int, lenv, next, k)],
                normalized_query@,
            )));
    }
    None
}

/// A jump target is a valid row index.
pub proof fn lemma_jump_row_bound(
    selected_source: int,
    len: int,
    next: bool,
    labels: Seq<Seq<char>>,
    q: Seq<char>,
)
    requires
        len == labels.len(),
        len > 0,
        selected_source >= 0,
    ensures
        jump_next_spec(labels, selected_source, q, next) matches Some(t) ==> 0 <= t < len,
{
    if jump_next_spec(labels, selected_source, q, next) is Some {
        let k = choose|k: int|
            0 <= k < len && label_matches(labels[jump_row(selected_source, len, next, k)], q) && (
            forall|j: int| 0 <= j < k ==> !label_matches(labels[jump_row(selected_source, len, next, j)], q));
        assert(0 <= jump_row(selected_source, len, next, k) < len);
    }
}

/// The first matching step is the one `jump_next_spec` picks.
pub proof fn lemma_jump_unique(
    labels: Seq<Seq<char>>,
    selected_source: int,
    q: Seq<char>,
    next: bool,
    k: int,
)
    requires
        q.len() > 0,
        0 <= k < labels.len(),
        label_matches(labels[jump_row(selected_source, labels.len() as int, next, k)], q),
        forall|j: int|
            0 <= j < k ==> !label_matches(
                labels[jump_row(selected_source, labels.len() as int, next, j)],
                q,
            ),
    ensures
        jump_next_spec(labels, selected_source, q, next) == Some(
            jump_row(selected_source, labels.len() as int, next, k),
        ),
{
    let len = labels.len() as int;
    let c = choose|c: int|
        0 <= c < len && label_matches(labels[jump_row(selected_source, len, next, c)], q) && (
        forall|j: int| 0 <= j < c ==> !label_matches(labels[jump_row(selected_source, len, next, j)], q));
    assert(0 <= c < len && label_matches(labels[jump_row(selected_source, len, next, c)], q) && (
    forall|j: int| 0 <= j < c ==> !label_matches(labels[jump_row(selected_source, len, next, j)], q)));
    if c < k {
    } else if c > k {
    }
    assert(c == k);
}

impl SearchState {
    pub fn new() -> (s: SearchState)
        ensures
            s.mode is None,
            s.query@ == Seq::<char>::empty(),
            s.normalized_query@ == Seq::<char>::empty(),
            !s.filter_browsing,
    {
        SearchState {
            mode: None,
            query: String::new(),
            normalized_query: String::new(),
            filter_browsing: false,
        }
    }

    /// Close the bar and forget the query.
    pub fn clear(&mut self)
        ensures
            final(self).mode is None,
            !final(self).filter_browsing,
            final(self).query@ == Seq::<char>::empty(),
            final(self).normalized_query@ == Seq::<char>::empty(),
    {
        self.mode = None;
        self.filter_browsing = false;
        self.query = String::new();
        self.normalized_query = String::new();
    }

    /// Open the typing bar in `mode` with an empty query.
    pub fn enter(&mut self, mode: LibrarySearchMode)
        ensures
            final(self).mode == Some(mode),
            !final(self).filter_browsing,
            final(self).query@ == Seq::<char>::empty(),
            final(self).normalized_query@ == Seq::<char>::empty(),
    {
        self.mode = Some(mode);
        self.filter_browsing = false;
        self.query = String::new();
        self.normalized_query = String::new();
    }

    /// Append a character to the query and renormalize.
    pub fn add_char(&mut self, c: char)
        ensures
            final(self).mode == old(self).mode,
            final(self).filter_browsing == old(self).filter_browsing,
            final(self).query@ == old(self).query@.push(c),
            final(self).normalized_query@ == normalize_spec(final(self).query@),
    {
        string_push(&mut self.query, c);
        self.normalized_query = normalize_label(self.query.as_str());
    }

    /// Remove the last query character (if any) and renormalize.
    pub fn delete_char(&mut self)
        ensures
            final(self).mode == old(self).mode,
            final(self).filter_browsing == old(self).filter_browsing,
            final(self).query@ == (if old(self).query@.len() == 0 {
                old(self).query@
            } else {
                old(self).query@.drop_last()
            }),
            final(self).normalized_query@ == normalize_spec(final(self).query@),
    {
        let cs = chars_of(self.query.as_str());
        if cs.len() > 0 {
            let mut kept = cs;
            kept.pop();
            self.query = string_from_chars(kept.as_slice());
        }
        self.normalized_query = normalize_label(self.query.as_str());
    }

    /// True when the table should show only rows matching the query.
    pub open spec fn filter_active_spec(&self) -> bool {
        (self.mode == Some(LibrarySearchMode::Filter) || self.filter_browsing)
            && self.normalized_query@.len() > 0
    }

    /// True when the ROM/list table should show only rows matching the query.
    pub fn filter_active(&self) -> (r: bool)
        ensures
            r == self.filter_active_spec(),
    {
        (matches!(self.mode, Some(LibrarySearchMode::Filter)) || self.filter_browsing)
            && !self.normalized_query.as_str().is_empty()
    }

    /// Enter pressed while typing: close the bar; after a filter with a non-blank
    /// query, keep browsing the matches.
    pub fn commit_filter_bar(&mut self)
        ensures
            final(self).mode is None,
            final(self).query == old(self).query,
            final(self).normalized_query == old(self).normalized_query,
            final(self).filter_browsing == (if old(self).mode == Some(LibrarySearchMode::Filter) {
                trim_spec(old(self).query@).len() > 0
            } else {
                old(self).filter_browsing
            }),
    {
        if matches!(self.mode, Some(LibrarySearchMode::Filter)) {
            self.mode = None;
            self.filter_browsing = !is_blank(self.query.as_str());
        } else {
            self.mode = None;
        }
    }
}

impl Default for SearchState {
    fn default() -> (s: SearchState)
        ensures
            s.mode is None,
            s.query@ == Seq::<char>::empty(),
            s.normalized_query@ == Seq::<char>::empty(),
            !s.filter_browsing,
    {
        SearchState::new()
    }
}

} // verus!
