//! Full-text ROM search screen: query editing, results grouped by game, selection.

use vstd::prelude::*;
use crate::library_browse::{scrolled, wrap_next};
use crate::rom_group::{group_roms_by_name, groups_of, RomGroup};
use crate::text::{
    byte_len, char_width, chars_before, on_char_boundary, str_byte_len, str_eq, string_insert,
    string_remove,
};
use crate::types::{area_fits, dup_roms, Area, Rom, RomList};

verus! {

/// Full-text search screen over ROMs, with grouped results.
pub struct SearchScreen {
    pub query: String,
    /// Cursor position in the query, as a byte offset.
    pub cursor_pos: usize,
    pub results: Option<RomList>,
    /// One row per game name (base + updates/DLC grouped).
    pub result_groups: Option<Vec<RomGroup>>,
    /// Query string used for the API call that produced `result_groups`, if any.
    pub last_searched_query: Option<String>,
    pub selected: usize,
    pub scroll_offset: usize,
    /// Visible result rows (set when the screen is drawn).
    pub visible_rows: usize,
}

impl SearchScreen {
    /// Number of result groups (0 without results).
    pub open spec fn group_count(&self) -> nat {
        match self.result_groups {
            Some(g) => g@.len(),
            None => 0,
        }
    }

    pub fn new() -> (s: SearchScreen)
        ensures
            s.query@.len() == 0,
            s.cursor_pos == 0,
            s.results is None,
            s.result_groups is None,
            s.last_searched_query is None,
            s.selected == 0,
            s.scroll_offset == 0,
            s.visible_rows == 15,
    {
        SearchScreen {
            query: String::new(),
            cursor_pos: 0,
            results: None,
            result_groups: None,
            last_searched_query: None,
            selected: 0,
            scroll_offset: 0,
            visible_rows: 15,
        }
    }

    /// The insertion point of `add_char`: the cursor, clamped to the query's byte length.
    pub open spec fn insert_at(&self) -> usize {
        if self.cursor_pos <= byte_len(self.query@) {
            self.cursor_pos
        } else {
            byte_len(self.query@) as usize
        }
    }

    /// Insert `c` at the cursor and move the cursor one byte right.
    pub fn add_char(&mut self, c: char)
        requires
            on_char_boundary(old(self).query@, old(self).insert_at() as int),
            old(self).insert_at() < usize::MAX,
        ensures
            Self::add_char_post(*old(self), *final(self), c),
    {
        let len = str_byte_len(self.query.as_str());
        let pos = if self.cursor_pos <= len {
            self.cursor_pos
        } else {
            len
        };
        string_insert(&mut self.query, pos, c);
        self.cursor_pos = pos + 1;
    }

    /// Delete the character before the cursor (which must start at `cursor_pos - 1`).
    pub fn delete_char(&mut self)
        requires
            0 < old(self).cursor_pos <= byte_len(old(self).query@) ==> on_char_boundary(
                old(self).query@,
                old(self).cursor_pos - 1,
            ),
        ensures
            Self::delete_char_post(*old(self), *final(self)),
    {
        let len = str_byte_len(self.query.as_str());
        if self.cursor_pos > 0 && self.cursor_pos <= len {
            string_remove(&mut self.query, self.cursor_pos - 1);
            self.cursor_pos = self.cursor_pos - 1;
        }
    }

    pub fn cursor_left(&mut self)
        ensures
            Self::cursor_left_post(*old(self), *final(self)),
    {
        if self.cursor_pos > 0 {
            self.cursor_pos = self.cursor_pos - 1;
        }
    }

    pub fn cursor_right(&mut self)
        ensures
            Self::cursor_right_post(*old(self), *final(self)),
    {
        let len = str_byte_len(self.query.as_str());
        if self.cursor_pos < len {
            self.cursor_pos = self.cursor_pos + 1;
        }
    }

    /// Show results fetched for the current query: grouped by game, first row selected.
    pub fn set_results(&mut self, results: RomList)
        ensures
            final(self).results == Some(results),
            final(self).result_groups matches Some(g) && groups_of(results.items@, g@),
            final(self).last_searched_query matches Some(q) && q@ == old(self).query@,
            final(self).selected == 0,
            final(self).scroll_offset == 0,
            final(self).query == old(self).query,
            final(self).cursor_pos == old(self).cursor_pos,
            final(self).visible_rows == old(self).visible_rows,
    {
        let groups = group_roms_by_name(results.items.as_slice());
        self.results = Some(results);
        self.result_groups = Some(groups);
        self.last_searched_query = Some(self.query.clone());
        self.selected = 0;
        self.scroll_offset = 0;
    }

    /// Drop the results and the query they were fetched for.
    pub fn clear_results(&mut self)
        ensures
            Self::clear_results_post(*old(self), *final(self)),
    {
        self.results = None;
        self.result_groups = None;
        self.last_searched_query = None;
    }

    /// True when the results on screen were fetched for the current query.
    pub fn results_match_current_query(&self) -> (b: bool)
        ensures
            b == (self.last_searched_query matches Some(q) && q@ == self.query@),
    {
        match &self.last_searched_query {
            Some(q) => str_eq(q.as_str(), self.query.as_str()),
            None => false,
        }
    }

    /// Keep the selection inside a window of `visible` rows (no-op without results).
    fn update_scroll(&mut self, visible: usize)
        ensures
            *final(self) == (SearchScreen {
                scroll_offset: if old(self).result_groups is Some {
                    scrolled(
                        old(self).selected,
                        old(self).scroll_offset,
                        old(self).group_count() as usize,
                        visible,
                    )
                } else {
                    old(self).scroll_offset
                },
                ..*old(self)
            }),
    {
        let n = match &self.result_groups {
            Some(g) => g.len(),
            None => {
                return ;
            },
        };
        let visible = if visible < 1 {
            1
        } else {
            visible
        };
        let max_scroll = if n >= visible {
            n - visible
        } else {
            0
        };
        if self.selected >= self.scroll_offset && self.selected - self.scroll_offset >= visible {
            self.scroll_offset = if self.selected >= visible - 1 {
                self.selected - (visible - 1)
            } else {
                0
            };
        } else if self.selected < self.scroll_offset {
            self.scroll_offset = self.selected;
        }
        if self.scroll_offset > max_scroll {
            self.scroll_offset = max_scroll;
        }
    }

    /// Select the next result, wrapping.
    pub fn next(&mut self)
        ensures
            Self::next_post(*old(self), *final(self)),
    {
        let n = match &self.result_groups {
            Some(g) => g.len(),
            None => 0,
        };
        if n > 0 {
            self.selected = wrap_next(self.selected, n);
            let v = self.visible_rows;
            self.update_scroll(v);
        }
    }

    /// Select the previous result, wrapping.
    pub fn previous(&mut self)
        ensures
            Self::previous_post(*old(self), *final(self)),
    {
        let n = match &self.result_groups {
            Some(g) => g.len(),
            None => 0,
        };
        if n > 0 {
            self.selected = if self.selected == 0 {
                n - 1
            } else {
                self.selected - 1
            };
            let v = self.visible_rows;
            self.update_scroll(v);
        }
    }

    /// Primary ROM and other files (updates/DLC) of the selected game.
    pub fn get_selected_group(&self) -> (r: Option<(Rom, Vec<Rom>)>)
        ensures
            (self.selected < self.group_count()) <==> r is Some,
            r matches Some((p, o)) ==> p == self.result_groups.unwrap()@[self.selected as int].primary
                && o@ == self.result_groups.unwrap()@[self.selected as int].others@,
    {
        match &self.result_groups {
            Some(g) => if self.selected < g.len() {
                Some((g[self.selected].primary.duplicate(), dup_roms(g[self.selected].others.as_slice())))
            } else {
                None
            },
            None => None,
        }
    }
}

impl Default for SearchScreen {
    fn default() -> (s: SearchScreen)
        ensures
            s.query@.len() == 0,
            s.cursor_pos == 0,
            s.results is None,
            s.result_groups is None,
            s.last_searched_query is None,
            s.selected == 0,
            s.scroll_offset == 0,
    {
        SearchScreen::new()
    }
}

impl SearchScreen {
    /// What `add_char` leaves: `o` before, `n` after.
    pub open spec fn add_char_post(o: SearchScreen, n: SearchScreen, c: char) -> bool {
        &&& ({
            let k = chars_before(o.query@, o.insert_at() as int);
            n.query@ == o.query@.take(k) + seq![c] + o.query@.skip(k)
        })
        &&& n.cursor_pos == o.insert_at() + 1
        &&& n.results == o.results
        &&& n.result_groups == o.result_groups
        &&& n.last_searched_query == o.last_searched_query
        &&& n.selected == o.selected
        &&& n.scroll_offset == o.scroll_offset
        &&& n.visible_rows == o.visible_rows
    }

    /// What `delete_char` leaves: `o` before, `n` after.
    pub open spec fn delete_char_post(o: SearchScreen, n: SearchScreen) -> bool {
        &&& if 0 < o.cursor_pos <= byte_len(o.query@) {
            &&& n.query@ == o.query@.remove(
                chars_before(o.query@, o.cursor_pos - 1),
            )
            &&& n.cursor_pos == o.cursor_pos - 1
        } else {
            &&& n.query == o.query
            &&& n.cursor_pos == o.cursor_pos
        }
        &&& n.results == o.results
        &&& n.result_groups == o.result_groups
        &&& n.last_searched_query == o.last_searched_query
        &&& n.selected == o.selected
        &&& n.scroll_offset == o.scroll_offset
        &&& n.visible_rows == o.visible_rows
    }

    /// What `cursor_left` leaves: `o` before, `n` after.
    pub open spec fn cursor_left_post(o: SearchScreen, n: SearchScreen) -> bool {
        &&& n == (SearchScreen {
            cursor_pos: if o.cursor_pos > 0 {
                (o.cursor_pos - 1) as usize
            } else {
                0
            },
            ..o
        })
    }

    /// What `cursor_right` leaves: `o` before, `n` after.
    pub open spec fn cursor_right_post(o: SearchScreen, n: SearchScreen) -> bool {
        &&& n == (SearchScreen {
            cursor_pos: if o.cursor_pos < byte_len(o.query@) {
                (o.cursor_pos + 1) as usize
            } else {
                o.cursor_pos
            },
            ..o
        })
    }

    /// What `clear_results` leaves: `o` before, `n` after.
    pub open spec fn clear_results_post(o: SearchScreen, n: SearchScreen) -> bool {
        &&& n == (SearchScreen {
            results: None,
            result_groups: None,
            last_searched_query: None,
            ..o
        })
    }

    /// What `next` leaves: `o` before, `n` after.
    pub open spec fn next_post(o: SearchScreen, n: SearchScreen) -> bool {
        &&& ({
            let cnt = o.group_count();
            if cnt > 0 {
                let sel = ((o.selected + 1) % (cnt as int)) as usize;
                n == (SearchScreen {
                    selected: sel,
                    scroll_offset: scrolled(sel, o.scroll_offset, cnt as usize, o.visible_rows),
                    ..o
                })
            } else {
                n == o
            }
        })
    }

    /// What `previous` leaves: `o` before, `n` after.
    pub open spec fn previous_post(o: SearchScreen, n: SearchScreen) -> bool {
        &&& ({
            let cnt = o.group_count();
            if cnt > 0 {
                let sel = if o.selected == 0 {
                    (cnt - 1) as usize
                } else {
                    (o.selected - 1) as usize
                };
                n == (SearchScreen {
                    selected: sel,
                    scroll_offset: scrolled(sel, o.scroll_offset, cnt as usize, o.visible_rows),
                    ..o
                })
            } else {
                n == o
            }
        })
    }
}


impl SearchScreen {
    /// Column offset of the cursor in the query box: past the border and the prompt, at the
    /// cursor clamped to the query's byte length.
    pub open spec fn query_offset(&self) -> int {
        9 + ((if self.cursor_pos < byte_len(self.query@) {
            self.cursor_pos as int
        } else {
            byte_len(self.query@) as int
        }) as u16)
    }

    /// Terminal cursor in the query box `top`: one row below its top edge, at the query
    /// offset, kept inside the box.
    pub fn cursor_position(&self, top: Area) -> (r: Option<(u16, u16)>)
        requires
            area_fits(top),
            top.y < u16::MAX,
            self.query_offset() <= u16::MAX,
        ensures
            r == Some(
                (
                    (top.x + if self.query_offset() < (if top.width > 0 {
                        top.width - 1
                    } else {
                        0
                    }) {
                        self.query_offset()
                    } else {
                        if top.width > 0 {
                            top.width - 1
                        } else {
                            0
                        }
                    }) as u16,
                    (top.y + 1) as u16,
                ),
            ),
    {
        let len = str_byte_len(self.query.as_str());
        let before = if self.cursor_pos < len {
            self.cursor_pos
        } else {
            len
        };
        let offset: u16 = 9 + (#[verifier::truncate] (before as u16));
        let room: u16 = if top.width > 0 {
            top.width - 1
        } else {
            0
        };
        let x: u16 = top.x + if offset < room {
            offset
        } else {
            room
        };
        Some((x, top.y + 1))
    }
}


/// Typing a one-byte character into the query and then pressing Backspace gives the query
/// and the cursor back (the cursor counts bytes, so after a wider character it would not
/// stand on a character boundary).
pub proof fn lemma_search_type_then_backspace(
    o: SearchScreen,
    m: SearchScreen,
    n: SearchScreen,
    c: char,
)
    requires
        on_char_boundary(o.query@, o.insert_at() as int),
        o.cursor_pos <= byte_len(o.query@),
        char_width(c) == 1,
        SearchScreen::add_char_post(o, m, c),
        SearchScreen::delete_char_post(m, n),
    ensures
        0 < m.cursor_pos <= byte_len(m.query@),
        on_char_boundary(m.query@, m.cursor_pos - 1),
        n.query@ == o.query@,
        n.cursor_pos == o.cursor_pos,
        n.results == o.results,
        n.selected == o.selected,
{
    let t = o.query@;
    let pos = o.cursor_pos as int;
    let k = chars_before(t, pos);
    crate::text::lemma_boundary_prefix(t, pos);
    let u = t.take(k) + seq![c] + t.skip(k);
    crate::text::lemma_insert_prefix(t, k, c);
    crate::text::lemma_prefix_boundary(u, k);
    crate::text::lemma_prefix_boundary(u, u.len() as int);
    assert(u.take(u.len() as int) =~= u);
    crate::text::lemma_prefix_boundary(u, k + 1);
    assert(u.remove(k) =~= t);
}


/// Pressing Backspace and then typing the deleted character again gives the query and the
/// cursor back, when that character is one byte wide (the cursor counts bytes). The retyped
/// key meets `add_char`'s precondition.
pub proof fn lemma_search_backspace_then_retype(o: SearchScreen, m: SearchScreen, n: SearchScreen)
    requires
        0 < o.cursor_pos <= byte_len(o.query@),
        on_char_boundary(o.query@, o.cursor_pos - 1),
        char_width(o.query@[chars_before(o.query@, o.cursor_pos - 1)]) == 1,
        SearchScreen::delete_char_post(o, m),
        SearchScreen::add_char_post(m, n, o.query@[chars_before(o.query@, o.cursor_pos - 1)]),
    ensures
        on_char_boundary(m.query@, m.insert_at() as int),
        m.insert_at() < usize::MAX,
        n.query@ == o.query@,
        n.cursor_pos == o.cursor_pos,
        n.results == o.results,
        n.selected == o.selected,
{
    let t = o.query@;
    let pos = o.cursor_pos - 1;
    crate::text::lemma_boundary_prefix(t, pos);
    let k = chars_before(t, pos);
    if k == t.len() {
        assert(t.take(k) =~= t);
    }
    assert(k < t.len());
    let c = t[k];
    let r = t.remove(k);
    assert(r =~= t.take(k) + t.skip(k + 1));
    assert(r.take(k) =~= t.take(k));
    crate::text::lemma_prefix_boundary(r, k);
    assert(t =~= t.take(k) + (seq![c] + t.skip(k + 1)));
    crate::text::lemma_byte_len_concat(t.take(k), seq![c] + t.skip(k + 1));
    crate::text::lemma_byte_len_concat(seq![c], t.skip(k + 1));
    crate::text::lemma_byte_len_concat(t.take(k), t.skip(k + 1));
    crate::text::lemma_byte_len_one(c);
    assert(byte_len(r) + 1 == byte_len(t));
    assert(m.insert_at() == pos);
    assert(r.take(k) + seq![c] + r.skip(k) =~= t);
}

/// Moving the cursor left and then right puts it back (when it stood inside the query).
pub proof fn lemma_search_left_then_right(o: SearchScreen, m: SearchScreen, n: SearchScreen)
    requires
        0 < o.cursor_pos <= byte_len(o.query@),
        SearchScreen::cursor_left_post(o, m),
        SearchScreen::cursor_right_post(m, n),
    ensures
        n == o,
{
}

/// In the results, moving down and then up returns to the selected game; only the scroll
/// position may differ.
pub proof fn lemma_search_next_then_previous(o: SearchScreen, m: SearchScreen, n: SearchScreen)
    requires
        o.selected < o.group_count(),
        SearchScreen::next_post(o, m),
        SearchScreen::previous_post(m, n),
    ensures
        n == (SearchScreen { scroll_offset: n.scroll_offset, ..o }),
{
    let len = o.group_count() as int;
    let g = o.result_groups->0;
    assert(g.len() == g@.len());
    if o.selected + 1 < len {
        assert((o.selected + 1) % len == o.selected + 1) by (nonlinear_arith)
            requires
                0 <= o.selected + 1 < len,
        ;
        assert(m.selected == o.selected + 1);
    } else {
        assert((o.selected + 1) % len == 0) by (nonlinear_arith)
            requires
                o.selected + 1 == len,
                len > 0,
        ;
        assert(m.selected == 0);
    }
    assert(n.selected == o.selected);
}

} // verus!
