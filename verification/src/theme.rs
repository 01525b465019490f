//! Theme choice: which built-in theme an ID selects and how the settings cycle through them.
//! The colours themselves come from `ratatui-themekit` in the front end.

use vstd::prelude::*;
use crate::text::{str_eq, string_of};

verus! {

/// The theme used for unknown IDs.
pub const DEFAULT_THEME_ID: &'static str = "terminal";

/// The built-in theme IDs of `ratatui-themekit`, in its display order.
pub open spec fn builtin_ids() -> Seq<Seq<char>> {
    seq![
        "catppuccin"@,
        "dracula"@,
        "nord"@,
        "gruvbox"@,
        "one-dark"@,
        "solarized"@,
        "tailwind"@,
        "tokyo-night"@,
        "rose-pine"@,
        "terminal"@,
    ]
}

/// The IDs' characters.
pub open spec fn ids_view(v: Seq<&'static str>) -> Seq<Seq<char>> {
    v.map_values(|s: &'static str| s@)
}

/// `ratatui_themekit::available_theme_ids`: the IDs of its built-in theme table, in order
/// (the table in its `themes` module; the `no-color` theme is not listed).
#[verifier::external_body]
fn available_theme_ids() -> (ids: Vec<&'static str>)
    ensures
        ids_view(ids@) == builtin_ids(),
{
    ratatui_themekit::available_theme_ids()
}

/// `ratatui_themekit::no_color_active`: whether `NO_COLOR` is set in the environment.
/// Nothing is stated of the answer: it depends on the environment.
#[verifier::external_body]
fn no_color_active() -> (b: bool) {
    ratatui_themekit::no_color_active()
}

/// Display name of the built-in theme with ID `id`; unknown IDs (and `no-color`, which is not
/// in the built-in table) fall back to Catppuccin Mocha, as `resolve_theme` does.
pub open spec fn theme_name_of(id: Seq<char>) -> Seq<char> {
    if id == "catppuccin"@ {
        "Catppuccin Mocha"@
    } else if id == "dracula"@ {
        "Dracula"@
    } else if id == "nord"@ {
        "Nord"@
    } else if id == "gruvbox"@ {
        "Gruvbox Dark"@
    } else if id == "one-dark"@ {
        "One Dark"@
    } else if id == "solarized"@ {
        "Solarized Dark"@
    } else if id == "tailwind"@ {
        "Tailwind Dark"@
    } else if id == "tokyo-night"@ {
        "Tokyo Night"@
    } else if id == "rose-pine"@ {
        "Rosé Pine"@
    } else if id == "terminal"@ {
        "Terminal Native"@
    } else {
        "Catppuccin Mocha"@
    }
}

/// `ratatui_themekit::resolve_theme(id).name()`: the display name of the theme that `id`
/// resolves to. Claimed, from the crate's source: `"No Color"` when `NO_COLOR` is set,
/// otherwise the name of the built-in theme with that ID (Catppuccin Mocha for an unknown
/// ID). Which of the two comes back depends on the environment and is not stated.
#[verifier::external_body]
fn resolved_theme_name(id: &str) -> (name: String)
    ensures
        name@ == "No Color"@ || name@ == theme_name_of(id@),
{
    ratatui_themekit::resolve_theme(id).name().to_string()
}

/// First position of `c` in `ids` at or after `i`; 0 when it is not there.
pub open spec fn position_from(ids: Seq<Seq<char>>, c: Seq<char>, i: int) -> int
    decreases ids.len() - i,
{
    if i < 0 || i >= ids.len() {
        0
    } else if ids[i] == c {
        i
    } else {
        position_from(ids, c, i + 1)
    }
}

/// Position of `c` in `ids` (0 when absent).
pub open spec fn position(ids: Seq<Seq<char>>, c: Seq<char>) -> int {
    position_from(ids, c, 0)
}

/// The ID after `c` in `ids`, wrapping (the first when `c` is absent's successor: position 1).
pub open spec fn next_in(ids: Seq<Seq<char>>, c: Seq<char>) -> Seq<char> {
    if ids.len() == 0 {
        DEFAULT_THEME_ID@
    } else {
        ids[(position(ids, c) + 1) % (ids.len() as int)]
    }
}

/// The ID before `c` in `ids`, wrapping.
pub open spec fn prev_in(ids: Seq<Seq<char>>, c: Seq<char>) -> Seq<char> {
    if ids.len() == 0 {
        DEFAULT_THEME_ID@
    } else {
        ids[(position(ids, c) + ids.len() - 1) % (ids.len() as int)]
    }
}

/// An ID that names a theme: a built-in one or `no-color`.
pub open spec fn known_in(ids: Seq<Seq<char>>, id: Seq<char>) -> bool {
    id == "no-color"@ || ids.contains(id)
}

/// The ID to resolve for `id`: itself when colours are off or when it is known, else the
/// default.
pub open spec fn id_to_resolve(ids: Seq<Seq<char>>, id: Seq<char>, no_color: bool) -> Seq<char> {
    if no_color || known_in(ids, id) {
        id
    } else {
        DEFAULT_THEME_ID@
    }
}

fn position_exec(ids: &Vec<&'static str>, c: &str) -> (p: usize)
    ensures
        p as int == position(ids_view(ids@), c@),
        ids@.len() > 0 ==> p < ids@.len(),
{
    let mut i: usize = 0;
    while i < ids.len()
        invariant
            i <= ids@.len(),
            position(ids_view(ids@), c@) == position_from(ids_view(ids@), c@, i as int),
        decreases ids@.len() - i,
    {
        if str_eq(ids[i], c) {
            return i;
        }
        i += 1;
    }
    0
}

/// The ID after `current` in `ids`, wrapping.
pub fn next_theme_id_in(ids: &Vec<&'static str>, current: &str) -> (r: String)
    ensures
        r@ == next_in(ids_view(ids@), current@),
{
    if ids.len() == 0 {
        return string_of(DEFAULT_THEME_ID);
    }
    let p = position_exec(ids, current);
    string_of(ids[(p + 1) % ids.len()])
}

/// The ID before `current` in `ids`, wrapping.
pub fn prev_theme_id_in(ids: &Vec<&'static str>, current: &str) -> (r: String)
    ensures
        r@ == prev_in(ids_view(ids@), current@),
{
    if ids.len() == 0 {
        return string_of(DEFAULT_THEME_ID);
    }
    let p = position_exec(ids, current);
    let n = ids.len();
    let q = if p == 0 {
        n - 1
    } else {
        p - 1
    };
    assert(q as int == (p + n - 1) % (n as int)) by (nonlinear_arith)
        requires
            p < n,
            q == (if p == 0 {
                n - 1
            } else {
                p - 1
            }),
    ;
    string_of(ids[q])
}

/// Cycle to the next built-in theme (wraps; an unknown ID counts as the first).
pub fn next_theme_id(current: &str) -> (r: String)
    ensures
        r@ == next_in(builtin_ids(), current@),
{
    let ids = available_theme_ids();
    next_theme_id_in(&ids, current)
}

/// Cycle to the previous built-in theme (wraps; an unknown ID counts as the first).
pub fn prev_theme_id(current: &str) -> (r: String)
    ensures
        r@ == prev_in(builtin_ids(), current@),
{
    let ids = available_theme_ids();
    prev_theme_id_in(&ids, current)
}

/// The ID that `id` resolves through, given the built-in IDs and whether colours are off.
pub fn theme_id_to_resolve_in(ids: &Vec<&'static str>, id: &str, no_color: bool) -> (r: String)
    ensures
        r@ == id_to_resolve(ids_view(ids@), id@, no_color),
{
    if no_color || str_eq(id, "no-color") {
        return string_of(id);
    }
    let mut i: usize = 0;
    while i < ids.len()
        invariant
            i <= ids@.len(),
            forall|k: int| 0 <= k < i ==> ids_view(ids@)[k] != id@,
        decreases ids@.len() - i,
    {
        if str_eq(ids[i], id) {
            assert(ids_view(ids@)[i as int] == id@);
            return string_of(id);
        }
        i += 1;
    }
    string_of(DEFAULT_THEME_ID)
}

/// The ID that `id` resolves through (unknown IDs fall back to the default theme, unless
/// colours are off).
pub fn theme_id_to_resolve(id: &str) -> (r: String)
    ensures
        r@ == id@ || r@ == DEFAULT_THEME_ID@,
        !known_in(builtin_ids(), id@) && r@ != id@ ==> r@ == DEFAULT_THEME_ID@,
        known_in(builtin_ids(), id@) ==> r@ == id@,
{
    let no_color = no_color_active();
    let ids = available_theme_ids();
    theme_id_to_resolve_in(&ids, id, no_color)
}

/// Human-readable name of the theme that `id` selects, with the fallback for unknown IDs:
/// `"No Color"` when colours are off, otherwise the name of that theme, or of the default
/// theme for an unknown ID. Which of the two depends on `NO_COLOR` in the environment; the
/// theme crate checks it itself, and with colours off the ID asked for makes no difference,
/// so the fallback ID is resolved whenever `id` is unknown.
pub fn theme_display_name(id: &str) -> (name: String)
    ensures
        name@ == "No Color"@ || name@ == theme_name_of(
            if known_in(builtin_ids(), id@) {
                id@
            } else {
                DEFAULT_THEME_ID@
            },
        ),
{
    let ids = available_theme_ids();
    let target = theme_id_to_resolve_in(&ids, id, false);
    resolved_theme_name(target.as_str())
}

proof fn lemma_position_of_distinct(ids: Seq<Seq<char>>, j: int, i: int)
    requires
        0 <= i <= j < ids.len(),
        forall|a: int, b: int| 0 <= a < b < ids.len() ==> ids[a] != ids[b],
    ensures
        position_from(ids, ids[j], i) == j,
    decreases j - i,
{
    if i < j {
        lemma_position_of_distinct(ids, j, i + 1);
    }
}

/// With distinct IDs, stepping back after stepping forward returns to a listed ID, and
/// stepping forward after stepping back does too.
pub proof fn lemma_theme_cycle_round_trip(ids: Seq<Seq<char>>, c: Seq<char>)
    requires
        ids.contains(c),
        forall|a: int, b: int| 0 <= a < b < ids.len() ==> ids[a] != ids[b],
    ensures
        prev_in(ids, next_in(ids, c)) == c,
        next_in(ids, prev_in(ids, c)) == c,
{
    let n = ids.len() as int;
    let j = choose|j: int| 0 <= j < n && ids[j] == c;
    lemma_position_of_distinct(ids, j, 0);
    let k = (j + 1) % n;
    lemma_position_of_distinct(ids, k, 0);
    assert((k + n - 1) % n == j) by (nonlinear_arith)
        requires
            k == (j + 1) % n,
            0 <= j < n,
    ;
    let m = (j + n - 1) % n;
    lemma_position_of_distinct(ids, m, 0);
    assert((m + 1) % n == j) by (nonlinear_arith)
        requires
            m == (j + n - 1) % n,
            0 <= j < n,
    ;
}

/// The built-in IDs are distinct, so cycling through them round-trips.
pub proof fn lemma_builtin_theme_cycle(c: Seq<char>)
    requires
        builtin_ids().contains(c),
    ensures
        prev_in(builtin_ids(), next_in(builtin_ids(), c)) == c,
        next_in(builtin_ids(), prev_in(builtin_ids(), c)) == c,
{
    reveal_strlit("catppuccin");
    reveal_strlit("dracula");
    reveal_strlit("nord");
    reveal_strlit("gruvbox");
    reveal_strlit("one-dark");
    reveal_strlit("solarized");
    reveal_strlit("tailwind");
    reveal_strlit("tokyo-night");
    reveal_strlit("rose-pine");
    reveal_strlit("terminal");
    assert forall|a: int, b: int| 0 <= a < b < builtin_ids().len() implies builtin_ids()[a]
        != builtin_ids()[b] by {
        assert(builtin_ids()[a].len() != builtin_ids()[b].len() || builtin_ids()[a][0]
            != builtin_ids()[b][0] || builtin_ids()[a][1] != builtin_ids()[b][1]);
    }
    lemma_theme_cycle_round_trip(builtin_ids(), c);
}

} // verus!
