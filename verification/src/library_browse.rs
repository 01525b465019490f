//! Library browser state: consoles/collections on the left, games on the right,
//! with filter/jump search in both panes.

use vstd::prelude::*;
use crate::cache::{opt_key_view, same_opt_key, RomCacheKey, RomCacheKeyView};
use crate::requests::{no_params, GetRoms};
use crate::rom_group::{group_roms_by_name, groups_of, RomGroup};
use crate::text::{concat, decimal, string_of, u64_to_decimal};
use crate::text_search::{
    filter_source_indices, jump_next_index, jump_row, label_matches, label_matches_exec,
    matching_indices, normalize_spec, views, LibrarySearchMode, SearchState,
};
use crate::types::{dup_roms, Collection, Platform, Rom, RomList};
use crate::splash::{elapsed_nanos, instant_now};
use std::time::Instant;

verus! {

/// Which grouping is shown in the left pane.
#[derive(Debug, Clone, Copy, PartialEq, Eq, Structural)]
pub enum LibrarySubsection {
    ByConsole,
    ByCollection,
}

/// Which side of the library view has focus.
#[derive(Debug, Clone, Copy, PartialEq, Eq, Structural)]
pub enum LibraryViewMode {
    /// Left panel: consoles or collections.
    List,
    /// Right panel: games of the selected console/collection.
    Roms,
}

/// Largest number of ROMs requested for one console or collection.
pub const ROM_REQUEST_CEILING: u64 = 20000;

/// Main library browser: consoles/collections on the left, games on the right.
pub struct LibraryBrowseScreen {
    pub platforms: Vec<Platform>,
    pub collections: Vec<Collection>,
    pub subsection: LibrarySubsection,
    pub list_index: usize,
    pub view_mode: LibraryViewMode,
    pub roms: Option<RomList>,
    /// One row per game name (base + updates/DLC grouped).
    pub rom_groups: Option<Vec<RomGroup>>,
    pub rom_selected: usize,
    pub scroll_offset: usize,
    /// Visible data rows in the ROM pane (set when the pane is drawn).
    pub visible_rows: usize,
    /// Filter/jump for the consoles/collections list (left pane).
    pub list_search: SearchState,
    /// Filter/jump for the games table (right pane).
    pub rom_search: SearchState,
    /// Non-blocking status line from metadata refresh.
    pub metadata_footer: Option<String>,
    /// True only while ROM data for the current selection is loading.
    pub rom_loading: bool,
    /// When a temporary footer was set, and for how long (nanoseconds) it stays.
    pub metadata_footer_set_at: Option<Instant>,
    pub metadata_footer_ttl_nanos: u128,
    /// The upload path prompt (Ctrl+U) is open; what is typed in it is the front end's.
    pub upload_prompt_open: bool,
}

// ---------------------------------------------------------------------------
// Row labels
// ---------------------------------------------------------------------------

/// `"<name> (<count> roms)"`.
pub open spec fn counted_label(name: Seq<char>, count: u64) -> Seq<char> {
    name + " ("@ + decimal(count as nat) + " roms)"@
}

/// Left-pane label of a console: display name (or name) and ROM count.
pub open spec fn platform_label(p: Platform) -> Seq<char> {
    let name = match p.display_name {
        Some(d) => d@,
        None => p.name@,
    };
    counted_label(name, p.rom_count)
}

/// Collection title: name with ` [auto]` for virtual and ` [smart]` for smart collections.
pub open spec fn collection_title(c: Collection) -> Seq<char> {
    if c.is_virtual {
        c.name@ + " [auto]"@
    } else if c.is_smart {
        c.name@ + " [smart]"@
    } else {
        c.name@
    }
}

/// Left-pane label of a collection.
pub open spec fn collection_label(c: Collection) -> Seq<char> {
    counted_label(
        collection_title(c),
        match c.rom_count {
            Some(n) => n,
            None => 0,
        },
    )
}

fn counted_label_exec(name: &str, count: u64) -> (out: String)
    ensures
        out@ == counted_label(name@, count),
{
    let a = concat(name, " (");
    let d = u64_to_decimal(count);
    let b = concat(a.as_str(), d.as_str());
    concat(b.as_str(), " roms)")
}

fn platform_label_exec(p: &Platform) -> (out: String)
    ensures
        out@ == platform_label(*p),
{
    match &p.display_name {
        Some(d) => counted_label_exec(d.as_str(), p.rom_count),
        None => counted_label_exec(p.name.as_str(), p.rom_count),
    }
}

fn collection_label_exec(c: &Collection) -> (out: String)
    ensures
        out@ == collection_label(*c),
{
    let title = if c.is_virtual {
        concat(c.name.as_str(), " [auto]")
    } else if c.is_smart {
        concat(c.name.as_str(), " [smart]")
    } else {
        string_of(c.name.as_str())
    };
    let n = match c.rom_count {
        Some(n) => n,
        None => 0,
    };
    counted_label_exec(title.as_str(), n)
}

/// The indices `0..n`.
pub open spec fn all_indices(n: nat) -> Seq<usize> {
    Seq::new(n, |i: int| i as usize)
}

/// Cache key of a collection row: virtual id, smart id or manual id.
pub open spec fn collection_key_spec(c: Collection) -> RomCacheKeyView {
    if c.is_virtual {
        RomCacheKeyView::VirtualCollection(
            match c.virtual_id {
                Some(v) => v@,
                None => Seq::<char>::empty(),
            },
        )
    } else if c.is_smart {
        RomCacheKeyView::SmartCollection(c.id)
    } else {
        RomCacheKeyView::Collection(c.id)
    }
}

/// The request size for an expected ROM count, capped at the ceiling.
pub open spec fn capped_count(n: u64) -> u32 {
    (if n < ROM_REQUEST_CEILING {
        n
    } else {
        ROM_REQUEST_CEILING
    }) as u32
}

/// The ROM request for a console.
pub open spec fn platform_request(p: Platform) -> Option<GetRoms> {
    if p.rom_count == 0 {
        None
    } else {
        Some(GetRoms { platform_id: Some(p.id), limit: Some(capped_count(p.rom_count)), ..no_params() })
    }
}

/// The ROM request for a collection, by its kind.
pub open spec fn collection_request(c: Collection) -> Option<GetRoms> {
    let n = match c.rom_count {
        Some(n) => n,
        None => 0,
    };
    if n == 0 {
        None
    } else if c.is_virtual {
        Some(
            GetRoms {
                virtual_collection_id: c.virtual_id,
                limit: Some(capped_count(n)),
                ..no_params()
            },
        )
    } else if c.is_smart {
        Some(GetRoms { smart_collection_id: Some(c.id), limit: Some(capped_count(n)), ..no_params() })
    } else {
        Some(GetRoms { collection_id: Some(c.id), limit: Some(capped_count(n)), ..no_params() })
    }
}

impl LibraryBrowseScreen {
    // -----------------------------------------------------------------------
    // Model
    // -----------------------------------------------------------------------

    /// Labels of the rows of the current subsection, in source order.
    pub open spec fn labels(&self) -> Seq<Seq<char>> {
        match self.subsection {
            LibrarySubsection::ByConsole => self.platforms@.map_values(|p: Platform| platform_label(p)),
            LibrarySubsection::ByCollection => self.collections@.map_values(
                |c: Collection| collection_label(c),
            ),
        }
    }

    /// Number of rows of a subsection before filtering.
    pub open spec fn source_len(&self, sub: LibrarySubsection) -> nat {
        match sub {
            LibrarySubsection::ByConsole => self.platforms@.len(),
            LibrarySubsection::ByCollection => self.collections@.len(),
        }
    }

    /// Source indices of the rows shown in the left pane (all, or the filter matches).
    pub open spec fn visible_list(&self) -> Seq<usize> {
        if self.list_search.filter_active_spec() {
            matching_indices(self.labels(), self.list_search.normalized_query@, self.labels().len())
        } else {
            all_indices(self.labels().len())
        }
    }

    /// Source index of the selected left-pane row, if the selection is on a row.
    pub open spec fn selected_source(&self) -> Option<usize> {
        if self.list_index < self.visible_list().len() {
            Some(self.visible_list()[self.list_index as int])
        } else {
            None
        }
    }

    /// Cache key of the row at `i` of subsection `sub`.
    pub open spec fn key_at(&self, sub: LibrarySubsection, i: int) -> Option<RomCacheKeyView> {
        match sub {
            LibrarySubsection::ByConsole => if 0 <= i < self.platforms@.len() {
                Some(RomCacheKeyView::Platform(self.platforms@[i].id))
            } else {
                None
            },
            LibrarySubsection::ByCollection => if 0 <= i < self.collections@.len() {
                Some(collection_key_spec(self.collections@[i]))
            } else {
                None
            },
        }
    }

    /// Expected ROM count of the row at `i` of subsection `sub` (0 when unknown).
    pub open spec fn expected_at(&self, sub: LibrarySubsection, i: int) -> u64 {
        match sub {
            LibrarySubsection::ByConsole => if 0 <= i < self.platforms@.len() {
                self.platforms@[i].rom_count
            } else {
                0
            },
            LibrarySubsection::ByCollection => if 0 <= i < self.collections@.len() {
                match self.collections@[i].rom_count {
                    Some(n) => n,
                    None => 0,
                }
            } else {
                0
            },
        }
    }

    /// ROM request for the row at `i` of subsection `sub`; none for empty rows.
    pub open spec fn request_at(&self, sub: LibrarySubsection, i: int) -> Option<GetRoms> {
        match sub {
            LibrarySubsection::ByConsole => if 0 <= i < self.platforms@.len() {
                platform_request(self.platforms@[i])
            } else {
                None
            },
            LibrarySubsection::ByCollection => if 0 <= i < self.collections@.len() {
                collection_request(self.collections@[i])
            } else {
                None
            },
        }
    }

    /// Cache key of the selected row.
    pub open spec fn selected_key(&self) -> Option<RomCacheKeyView> {
        match self.selected_source() {
            Some(i) => self.key_at(self.subsection, i as int),
            None => None,
        }
    }

    /// Expected ROM count of the selected row (0 when nothing is selected).
    pub open spec fn selected_expected(&self) -> u64 {
        match self.selected_source() {
            Some(i) => self.expected_at(self.subsection, i as int),
            None => 0,
        }
    }

    /// Names of the loaded games.
    pub open spec fn group_names(&self) -> Seq<Seq<char>> {
        match self.rom_groups {
            Some(g) => g@.map_values(|x: RomGroup| x.name@),
            None => seq![],
        }
    }

    /// Indices into `rom_groups` of the games shown in the right pane.
    pub open spec fn visible_games(&self) -> Seq<usize> {
        match self.rom_groups {
            None => seq![],
            Some(g) => if self.rom_search.filter_active_spec() {
                matching_indices(self.group_names(), self.rom_search.normalized_query@, g@.len())
            } else {
                all_indices(g@.len())
            },
        }
    }
}

/// Indices `0..n` as a vector.
fn index_range(n: usize) -> (out: Vec<usize>)
    ensures
        out@ == all_indices(n as nat),
{
    let mut out: Vec<usize> = Vec::new();
    let mut i: usize = 0;
    while i < n
        invariant
            i <= n,
            out@ == all_indices(i as nat),
        decreases n - i,
    {
        out.push(i);
        assert(all_indices(i as nat).push(i) =~= all_indices((i + 1) as nat));
        i += 1;
    }
    out
}

/// Cache key of a collection row.
pub fn collection_key(c: &Collection) -> (k: RomCacheKey)
    ensures
        k@ == collection_key_spec(*c),
{
    if c.is_virtual {
        let id = match &c.virtual_id {
            Some(v) => v.clone(),
            None => String::new(),
        };
        RomCacheKey::VirtualCollection(id)
    } else if c.is_smart {
        RomCacheKey::SmartCollection(c.id)
    } else {
        RomCacheKey::Collection(c.id)
    }
}

fn cap_count(n: u64) -> (r: u32)
    ensures
        r == capped_count(n),
{
    if n < ROM_REQUEST_CEILING {
        n as u32
    } else {
        ROM_REQUEST_CEILING as u32
    }
}

fn platform_request_exec(p: &Platform) -> (r: Option<GetRoms>)
    ensures
        r == platform_request(*p),
{
    if p.rom_count == 0 {
        return None;
    }
    let mut g = GetRoms::default();
    g.platform_id = Some(p.id);
    g.limit = Some(cap_count(p.rom_count));
    Some(g)
}

fn collection_request_exec(c: &Collection) -> (r: Option<GetRoms>)
    ensures
        r == collection_request(*c),
{
    let n = match c.rom_count {
        Some(n) => n,
        None => 0,
    };
    if n == 0 {
        return None;
    }
    let mut g = GetRoms::default();
    g.limit = Some(cap_count(n));
    if c.is_virtual {
        g.virtual_collection_id = c.virtual_id.clone();
    } else if c.is_smart {
        g.smart_collection_id = Some(c.id);
    } else {
        g.collection_id = Some(c.id);
    }
    Some(g)
}

impl LibraryBrowseScreen {
    /// A fresh browser over the given consoles and collections: consoles shown,
    /// first row selected, no games loaded, no search.
    pub fn new(platforms: Vec<Platform>, collections: Vec<Collection>) -> (s: LibraryBrowseScreen)
        ensures
            s.platforms == platforms,
            s.collections == collections,
            s.subsection == LibrarySubsection::ByConsole,
            s.list_index == 0,
            s.view_mode == LibraryViewMode::List,
            s.roms is None,
            s.rom_groups is None,
            s.rom_selected == 0,
            s.scroll_offset == 0,
            s.visible_rows == 20,
            s.list_search.mode is None && !s.list_search.filter_browsing,
            s.list_search.query@.len() == 0 && s.list_search.normalized_query@.len() == 0,
            s.rom_search.mode is None && !s.rom_search.filter_browsing,
            s.rom_search.query@.len() == 0 && s.rom_search.normalized_query@.len() == 0,
            s.metadata_footer is None,
            !s.rom_loading,
            s.metadata_footer_set_at is None,
            !s.upload_prompt_open,
    {
        LibraryBrowseScreen {
            platforms,
            collections,
            subsection: LibrarySubsection::ByConsole,
            list_index: 0,
            view_mode: LibraryViewMode::List,
            roms: None,
            rom_groups: None,
            rom_selected: 0,
            scroll_offset: 0,
            visible_rows: 20,
            list_search: SearchState::new(),
            rom_search: SearchState::new(),
            metadata_footer: None,
            rom_loading: false,
            metadata_footer_set_at: None,
            metadata_footer_ttl_nanos: 0,
            upload_prompt_open: false,
        }
    }

    pub fn set_metadata_footer(&mut self, msg: Option<String>)
        ensures
            *final(self) == (LibraryBrowseScreen { metadata_footer: msg, ..*old(self) }),
    {
        self.metadata_footer = msg;
    }

    /// The upload path prompt is open.
    pub fn any_upload_prompt_open(&self) -> (b: bool)
        ensures
            b == self.upload_prompt_open,
    {
        self.upload_prompt_open
    }

    /// Open the upload path prompt.
    pub fn open_upload_prompt(&mut self)
        ensures
            *final(self) == (LibraryBrowseScreen { upload_prompt_open: true, ..*old(self) }),
    {
        self.upload_prompt_open = true;
    }

    /// Close the upload path prompt.
    pub fn close_upload_prompt(&mut self)
        ensures
            *final(self) == (LibraryBrowseScreen { upload_prompt_open: false, ..*old(self) }),
    {
        self.upload_prompt_open = false;
    }

    /// Show `msg` in the footer for `ttl_nanos` nanoseconds from now.
    pub fn set_temporary_metadata_footer(&mut self, msg: String, ttl_nanos: u128)
        ensures
            final(self).metadata_footer == Some(msg),
            final(self).metadata_footer_set_at is Some,
            *final(self) == (LibraryBrowseScreen {
                metadata_footer: Some(msg),
                metadata_footer_set_at: final(self).metadata_footer_set_at,
                metadata_footer_ttl_nanos: ttl_nanos,
                ..*old(self)
            }),
    {
        self.metadata_footer = Some(msg);
        self.metadata_footer_set_at = Some(instant_now());
        self.metadata_footer_ttl_nanos = ttl_nanos;
    }

    /// Clear a temporary footer once `elapsed` nanoseconds since it was set reach its lifetime.
    pub fn expire_metadata_footer(&mut self, elapsed: u128)
        ensures
            *final(self) == if old(self).metadata_footer_set_at is Some && elapsed
                >= old(self).metadata_footer_ttl_nanos {
                LibraryBrowseScreen {
                    metadata_footer: None,
                    metadata_footer_set_at: None,
                    ..*old(self)
                }
            } else {
                *old(self)
            },
    {
        if self.metadata_footer_set_at.is_some() && elapsed >= self.metadata_footer_ttl_nanos {
            self.metadata_footer = None;
            self.metadata_footer_set_at = None;
        }
    }

    /// Clear a temporary footer whose lifetime has passed on the clock. Either the screen is
    /// unchanged or exactly the footer and its timer are cleared; which one depends on the time,
    /// except that a footer without a timer always stays and one with a zero lifetime is always
    /// cleared (the clock never reads earlier than when the footer was set).
    pub fn poll_footer_clear(&mut self)
        ensures
            *final(self) == *old(self) || (old(self).metadata_footer_set_at is Some
                && *final(self) == (LibraryBrowseScreen {
                metadata_footer: None,
                metadata_footer_set_at: None,
                ..*old(self)
            })),
            old(self).metadata_footer_set_at is None ==> *final(self) == *old(self),
            old(self).metadata_footer_set_at is Some && old(self).metadata_footer_ttl_nanos == 0
                ==> *final(self) == (LibraryBrowseScreen {
                metadata_footer: None,
                metadata_footer_set_at: None,
                ..*old(self)
            }),
    {
        let elapsed = match &self.metadata_footer_set_at {
            Some(t) => elapsed_nanos(t),
            None => 0,
        };
        self.expire_metadata_footer(elapsed);
    }

    /// Display strings for each row of the current subsection (without selection prefix).
    pub fn list_row_labels(&self) -> (out: Vec<String>)
        ensures
            views(out@) == self.labels(),
            out@.len() == self.labels().len(),
    {
        let mut out: Vec<String> = Vec::new();
        match self.subsection {
            LibrarySubsection::ByConsole => {
                let mut i: usize = 0;
                while i < self.platforms.len()
                    invariant
                        self.subsection == LibrarySubsection::ByConsole,
                        i <= self.platforms@.len(),
                        views(out@) == self.platforms@.take(i as int).map_values(
                            |p: Platform| platform_label(p),
                        ),
                        out@.len() == i,
                    decreases self.platforms@.len() - i,
                {
                    let l = platform_label_exec(&self.platforms[i]);
                    let ghost prev = out@;
                    out.push(l);
                    assert forall|k: int| 0 <= k < i + 1 implies #[trigger] views(out@)[k]
                        == self.platforms@.take(i + 1).map_values(|p: Platform| platform_label(p))[k] by {
                        if k < i {
                            assert(views(prev)[k] == self.platforms@.take(i as int).map_values(
                                |p: Platform| platform_label(p),
                            )[k]);
                        }
                    }
                    assert(views(out@) =~= self.platforms@.take(i + 1).map_values(
                        |p: Platform| platform_label(p),
                    ));
                    i += 1;
                }
                assert(self.platforms@.take(i as int) =~= self.platforms@);
            },
            LibrarySubsection::ByCollection => {
                let mut i: usize = 0;
                while i < self.collections.len()
                    invariant
                        self.subsection == LibrarySubsection::ByCollection,
                        i <= self.collections@.len(),
                        views(out@) == self.collections@.take(i as int).map_values(
                            |c: Collection| collection_label(c),
                        ),
                        out@.len() == i,
                    decreases self.collections@.len() - i,
                {
                    let l = collection_label_exec(&self.collections[i]);
                    let ghost prev = out@;
                    out.push(l);
                    assert forall|k: int| 0 <= k < i + 1 implies #[trigger] views(out@)[k]
                        == self.collections@.take(i + 1).map_values(|c: Collection| collection_label(c))[k] by {
                        if k < i {
                            assert(views(prev)[k] == self.collections@.take(i as int).map_values(
                                |c: Collection| collection_label(c),
                            )[k]);
                        }
                    }
                    assert(views(out@) =~= self.collections@.take(i + 1).map_values(
                        |c: Collection| collection_label(c),
                    ));
                    i += 1;
                }
                assert(self.collections@.take(i as int) =~= self.collections@);
            },
        }
        out
    }

    /// Source indices of the rows shown in the left pane.
    pub fn visible_list_source_indices(&self) -> (out: Vec<usize>)
        ensures
            out@ == self.visible_list(),
    {
        let labels = self.list_row_labels();
        if self.list_search.filter_active() {
            filter_source_indices(labels.as_slice(), self.list_search.normalized_query.as_str())
        } else {
            index_range(labels.len())
        }
    }

    /// Reset the selection to the first row when it no longer points at a visible row.
    pub fn clamp_list_index(&mut self)
        ensures
            *final(self) == (LibraryBrowseScreen {
                list_index: if old(self).list_index < old(self).visible_list().len() {
                    old(self).list_index
                } else {
                    0
                },
                ..*old(self)
            }),
    {
        let v = self.visible_list_source_indices();
        if v.len() == 0 || self.list_index >= v.len() {
            self.list_index = 0;
        }
    }

    /// Source index into `platforms` / `collections` for the current list selection.
    pub fn selected_list_source_index(&self) -> (r: Option<usize>)
        ensures
            r == self.selected_source(),
    {
        let v = self.visible_list_source_indices();
        if self.list_index < v.len() {
            Some(v[self.list_index])
        } else {
            None
        }
    }

    /// Number of rows shown in the left pane.
    pub fn list_len(&self) -> (n: usize)
        ensures
            n == self.visible_list().len(),
    {
        self.visible_list_source_indices().len()
    }

    /// Move the list selection down, wrapping to the top.
    pub fn list_next(&mut self)
        ensures
            Self::list_next_post(*old(self), *final(self)),
    {
        let len = self.list_len();
        if len > 0 {
            self.list_index = wrap_next(self.list_index, len);
        }
    }

    /// Move the list selection up, wrapping to the bottom.
    pub fn list_previous(&mut self)
        ensures
            Self::list_previous_post(*old(self), *final(self)),
    {
        let len = self.list_len();
        if len > 0 {
            self.list_index = if self.list_index == 0 {
                len - 1
            } else {
                self.list_index - 1
            };
        }
    }

    /// Cache key of the row at `source_idx` of `subsection`.
    pub fn cache_key_for_position(&self, subsection: LibrarySubsection, source_idx: usize) -> (r:
        Option<RomCacheKey>)
        ensures
            opt_key_view(r) == self.key_at(subsection, source_idx as int),
    {
        match subsection {
            LibrarySubsection::ByConsole => if source_idx < self.platforms.len() {
                Some(RomCacheKey::Platform(self.platforms[source_idx].id))
            } else {
                None
            },
            LibrarySubsection::ByCollection => if source_idx < self.collections.len() {
                Some(collection_key(&self.collections[source_idx]))
            } else {
                None
            },
        }
    }

    /// Expected ROM count of the row at `source_idx` of `subsection` (0 when unknown).
    pub fn expected_rom_count_for_position(&self, subsection: LibrarySubsection, source_idx: usize)
        -> (n: u64)
        ensures
            n == self.expected_at(subsection, source_idx as int),
    {
        match subsection {
            LibrarySubsection::ByConsole => if source_idx < self.platforms.len() {
                self.platforms[source_idx].rom_count
            } else {
                0
            },
            LibrarySubsection::ByCollection => if source_idx < self.collections.len() {
                match self.collections[source_idx].rom_count {
                    Some(n) => n,
                    None => 0,
                }
            } else {
                0
            },
        }
    }

    /// ROM request for the row at `source_idx` of `subsection`; `None` for rows with no ROMs.
    pub fn get_roms_request_for_position(&self, subsection: LibrarySubsection, source_idx: usize)
        -> (r: Option<GetRoms>)
        ensures
            r == self.request_at(subsection, source_idx as int),
    {
        match subsection {
            LibrarySubsection::ByConsole => if source_idx < self.platforms.len() {
                platform_request_exec(&self.platforms[source_idx])
            } else {
                None
            },
            LibrarySubsection::ByCollection => if source_idx < self.collections.len() {
                collection_request_exec(&self.collections[source_idx])
            } else {
                None
            },
        }
    }

    /// Cache key of the selected row.
    pub fn cache_key(&self) -> (r: Option<RomCacheKey>)
        ensures
            opt_key_view(r) == (match self.selected_source() {
                Some(i) => self.key_at(self.subsection, i as int),
                None => None,
            }),
    {
        match self.selected_list_source_index() {
            Some(i) => self.cache_key_for_position(self.subsection, i),
            None => None,
        }
    }

    /// Expected ROM count of the selected row (0 when nothing is selected).
    pub fn expected_rom_count(&self) -> (n: u64)
        ensures
            n == (match self.selected_source() {
                Some(i) => self.expected_at(self.subsection, i as int),
                None => 0,
            }),
    {
        match self.selected_list_source_index() {
            Some(i) => self.expected_rom_count_for_position(self.subsection, i),
            None => 0,
        }
    }

    /// Console ROM request for the selected row index (looked up among the consoles).
    pub fn get_roms_request_platform(&self) -> (r: Option<GetRoms>)
        ensures
            r == (match self.selected_source() {
                Some(i) => self.request_at(LibrarySubsection::ByConsole, i as int),
                None => None,
            }),
    {
        match self.selected_list_source_index() {
            Some(i) => self.get_roms_request_for_position(LibrarySubsection::ByConsole, i),
            None => None,
        }
    }

    /// Collection ROM request for the selected row; `None` unless collections are shown.
    pub fn get_roms_request_collection(&self) -> (r: Option<GetRoms>)
        ensures
            r == (if self.subsection != LibrarySubsection::ByCollection {
                None
            } else {
                match self.selected_source() {
                    Some(i) => self.request_at(LibrarySubsection::ByCollection, i as int),
                    None => None,
                }
            }),
    {
        if self.subsection != LibrarySubsection::ByCollection {
            return None;
        }
        match self.selected_list_source_index() {
            Some(i) => self.get_roms_request_for_position(LibrarySubsection::ByCollection, i),
            None => None,
        }
    }

    /// Id of the selected console (consoles subsection only).
    pub fn selected_platform_id(&self) -> (r: Option<u64>)
        ensures
            r == (match self.subsection {
                LibrarySubsection::ByConsole => match self.selected_source() {
                    Some(i) => if (i as int) < self.platforms@.len() {
                        Some(self.platforms@[i as int].id)
                    } else {
                        None
                    },
                    None => None,
                },
                LibrarySubsection::ByCollection => None,
            }),
    {
        match self.subsection {
            LibrarySubsection::ByConsole => match self.selected_list_source_index() {
                Some(i) => if i < self.platforms.len() {
                    Some(self.platforms[i].id)
                } else {
                    None
                },
                None => None,
            },
            LibrarySubsection::ByCollection => None,
        }
    }

    /// True while either pane has the search typing bar open (blocks global shortcuts).
    pub fn any_search_bar_open(&self) -> (r: bool)
        ensures
            r == (self.list_search.mode is Some || self.rom_search.mode is Some),
    {
        self.list_search.mode.is_some() || self.rom_search.mode.is_some()
    }
}

/// Scroll offset after making `sel` visible in a window of `visible` rows over
/// `list_len` rows (at least one row is always visible).
pub open spec fn scrolled(sel: usize, scroll: usize, list_len: usize, visible: usize) -> usize {
    let vis = if visible < 1 {
        1
    } else {
        visible
    };
    let max_scroll = if list_len >= vis {
        list_len - vis
    } else {
        0
    };
    let s1 = if sel >= scroll + vis {
        if sel + 1 >= vis {
            sel + 1 - vis
        } else {
            0
        }
    } else if sel < scroll {
        sel as int
    } else {
        scroll as int
    };
    (if s1 < max_scroll {
        s1
    } else {
        max_scroll
    }) as usize
}

/// `(i + 1) % len`, computed without overflow.
pub fn wrap_next(i: usize, len: usize) -> (r: usize)
    requires
        len > 0,
    ensures
        r == (i + 1) % (len as int),
{
    let m = i % len;
    proof {
        vstd::arithmetic::div_mod::lemma_add_mod_noop(i as int, 1, len as int);
        vstd::arithmetic::div_mod::lemma_mod_pos_bound(i as int, len as int);
        if len > 1 {
            vstd::arithmetic::div_mod::lemma_small_mod(1, len as nat);
        } else {
            vstd::arithmetic::div_mod::lemma_mod_pos_bound(i + 1, 1);
            vstd::arithmetic::div_mod::lemma_mod_pos_bound(m + 1, 1);
            vstd::arithmetic::div_mod::lemma_mod_pos_bound(1, 1);
        }
        if m + 1 < len {
            vstd::arithmetic::div_mod::lemma_small_mod((m + 1) as nat, len as nat);
        } else {
            vstd::arithmetic::div_mod::lemma_mod_self_0(len as int);
        }
    }
    if m == len - 1 {
        0
    } else {
        m + 1
    }
}

/// After scrolling, a selection inside the list is inside the window, and the window
/// never runs past the end of the list.
pub proof fn lemma_scrolled_shows_selection(sel: usize, scroll: usize, list_len: usize, visible: usize)
    requires
        sel < list_len,
    ensures
        scrolled(sel, scroll, list_len, visible) <= sel,
        sel < scrolled(sel, scroll, list_len, visible) + (if visible < 1 {
            1
        } else {
            visible
        }),
        scrolled(sel, scroll, list_len, visible) + (if visible < 1 {
            1
        } else {
            visible
        }) <= list_len || scrolled(sel, scroll, list_len, visible) == 0,
        scrolled(sel, scroll, list_len, visible) <= (if list_len >= (if visible < 1 {
            1
        } else {
            visible
        }) {
            list_len - (if visible < 1 {
                1
            } else {
                visible
            })
        } else {
            0
        }),
{
}

/// Moving down in the games table selects the next game (wrapping) and scrolls so that it is
/// inside the window of shown rows, which never runs past the end of the list.
pub proof fn lemma_rom_next_keeps_window(o: LibraryBrowseScreen, n: LibraryBrowseScreen)
    requires
        0 < o.visible_games().len() <= usize::MAX,
        LibraryBrowseScreen::rom_next_post(o, n),
    ensures
        ({
            let len = o.visible_games().len() as int;
            let v = if o.visible_rows < 1 {
                1
            } else {
                o.visible_rows as int
            };
            &&& n.rom_selected == (o.rom_selected + 1) % len
            &&& n.scroll_offset <= n.rom_selected < n.scroll_offset + v
            &&& n.scroll_offset <= (if len >= v {
                len - v
            } else {
                0
            })
        }),
{
    let len = o.visible_games().len() as int;
    vstd::arithmetic::div_mod::lemma_mod_pos_bound(o.rom_selected + 1, len);
    lemma_scrolled_shows_selection(
        n.rom_selected,
        o.scroll_offset,
        len as usize,
        o.visible_rows,
    );
}

impl LibraryBrowseScreen {
    /// Names of the loaded games, in list order.
    fn group_name_list(&self) -> (out: Vec<String>)
        ensures
            views(out@) == self.group_names(),
            out@.len() == self.group_names().len(),
    {
        let mut out: Vec<String> = Vec::new();
        match &self.rom_groups {
            None => {},
            Some(g) => {
                let mut i: usize = 0;
                while i < g.len()
                    invariant
                        self.rom_groups == Some(*g),
                        i <= g@.len(),
                        views(out@) == g@.take(i as int).map_values(|x: RomGroup| x.name@),
                        out@.len() == i,
                    decreases g@.len() - i,
                {
                    let ghost prev = out@;
                    out.push(g[i].name.clone());
                    assert forall|k: int| 0 <= k < i + 1 implies #[trigger] views(out@)[k]
                        == g@.take(i + 1).map_values(|x: RomGroup| x.name@)[k] by {
                        if k < i {
                            assert(views(prev)[k] == g@.take(i as int).map_values(
                                |x: RomGroup| x.name@,
                            )[k]);
                        }
                    }
                    assert(views(out@) =~= g@.take(i + 1).map_values(|x: RomGroup| x.name@));
                    i += 1;
                }
                assert(g@.take(i as int) =~= g@);
            },
        }
        assert(views(out@) =~= self.group_names());
        out
    }

    /// Indices into `rom_groups` of the games shown in the right pane.
    pub fn visible_rom_group_indices(&self) -> (out: Vec<usize>)
        ensures
            out@ == self.visible_games(),
    {
        match &self.rom_groups {
            None => Vec::new(),
            Some(g) => {
                let names = self.group_name_list();
                if self.rom_search.filter_active() {
                    filter_source_indices(names.as_slice(), self.rom_search.normalized_query.as_str())
                } else {
                    index_range(g.len())
                }
            },
        }
    }

    /// Keep the selected game inside the window of `visible` rows over `list_len` rows.
    pub fn update_rom_scroll_with_len(&mut self, list_len: usize, visible: usize)
        ensures
            *final(self) == (LibraryBrowseScreen {
                scroll_offset: scrolled(
                    old(self).rom_selected,
                    old(self).scroll_offset,
                    list_len,
                    visible,
                ),
                ..*old(self)
            }),
    {
        let visible = if visible < 1 {
            1
        } else {
            visible
        };
        let max_scroll = if list_len >= visible {
            list_len - visible
        } else {
            0
        };
        if self.rom_selected >= self.scroll_offset && self.rom_selected - self.scroll_offset
            >= visible {
            self.scroll_offset = if self.rom_selected >= visible - 1 {
                self.rom_selected - (visible - 1)
            } else {
                0
            };
        } else if self.rom_selected < self.scroll_offset {
            self.scroll_offset = self.rom_selected;
        }
        if self.scroll_offset > max_scroll {
            self.scroll_offset = max_scroll;
        }
    }

    /// Re-scroll the games pane for its current filtered length (no-op without games).
    fn update_rom_scroll(&mut self, visible: usize)
        ensures
            *final(self) == (LibraryBrowseScreen {
                scroll_offset: if old(self).rom_groups is None {
                    old(self).scroll_offset
                } else {
                    scrolled(
                        old(self).rom_selected,
                        old(self).scroll_offset,
                        old(self).visible_games().len() as usize,
                        visible,
                    )
                },
                ..*old(self)
            }),
    {
        if self.rom_groups.is_none() {
            return;
        }
        let n = self.visible_rom_group_indices().len();
        self.update_rom_scroll_with_len(n, visible);
    }

    /// Move the game selection down within the shown games, wrapping to the top.
    pub fn rom_next(&mut self)
        ensures
            Self::rom_next_post(*old(self), *final(self)),
    {
        let len = self.visible_rom_group_indices().len();
        if len > 0 {
            self.rom_selected = wrap_next(self.rom_selected, len);
            let v = self.visible_rows;
            self.update_rom_scroll(v);
        }
    }

    /// Move the game selection up within the shown games, wrapping to the bottom.
    pub fn rom_previous(&mut self)
        ensures
            Self::rom_previous_post(*old(self), *final(self)),
    {
        let len = self.visible_rom_group_indices().len();
        if len > 0 {
            self.rom_selected = if self.rom_selected == 0 {
                len - 1
            } else {
                self.rom_selected - 1
            };
            let v = self.visible_rows;
            self.update_rom_scroll(v);
        }
    }

    /// Index into the shown games of the selection (a stale selection falls back to the first).
    pub open spec fn selected_game_position(&self) -> int {
        if self.rom_selected >= self.visible_games().len() {
            0
        } else {
            self.rom_selected as int
        }
    }

    /// Primary ROM and other files (updates/DLC) of the selected game among those shown.
    pub fn get_selected_group(&self) -> (r: Option<(Rom, Vec<Rom>)>)
        ensures
            self.visible_games().len() == 0 <==> r is None,
            r matches Some((p, o)) ==> ({
                let g = self.rom_groups.unwrap()@[self.visible_games()[self.selected_game_position()] as int];
                p == g.primary && o@ == g.others@
            }),
    {
        let visible = self.visible_rom_group_indices();
        if visible.len() == 0 {
            return None;
        }
        let idx = if self.rom_selected >= visible.len() {
            0
        } else {
            self.rom_selected
        };
        match &self.rom_groups {
            Some(g) => {
                let gi = visible[idx];
                proof {
                    assert(g@.len() == g.len());
                    assert(self.group_names().len() == g@.len());
                    if self.rom_search.filter_active_spec() {
                        crate::text_search::lemma_matching_indices(
                            self.group_names(),
                            self.rom_search.normalized_query@,
                            g@.len(),
                        );
                    }
                    assert(self.visible_games()[idx as int] < g@.len());
                }
                Some((g[gi].primary.duplicate(), dup_roms(g[gi].others.as_slice())))
            },
            None => None,
        }
    }
}

impl LibraryBrowseScreen {
    /// Toggle consoles/collections: first row, no games, list focus, list search cleared.
    pub fn switch_subsection(&mut self)
        ensures
            Self::switch_subsection_post(*old(self), *final(self)),
    {
        self.subsection = match self.subsection {
            LibrarySubsection::ByConsole => LibrarySubsection::ByCollection,
            LibrarySubsection::ByCollection => LibrarySubsection::ByConsole,
        };
        self.list_index = 0;
        self.roms = None;
        self.rom_loading = false;
        self.view_mode = LibraryViewMode::List;
        self.list_search.clear();
    }

    /// Move focus to the other pane, clearing the search of the pane being left and
    /// resetting the game selection.
    pub fn switch_view(&mut self)
        ensures
            Self::switch_view_post(*old(self), *final(self)),
    {
        match self.view_mode {
            LibraryViewMode::List => {
                self.list_search.clear();
                self.view_mode = LibraryViewMode::Roms;
            },
            LibraryViewMode::Roms => {
                self.rom_search.clear();
                self.view_mode = LibraryViewMode::List;
            },
        }
        self.rom_selected = 0;
        self.scroll_offset = 0;
    }

    /// Back from the games pane to the list, keeping loaded games and loading state.
    pub fn back_to_list(&mut self)
        ensures
            Self::back_to_list_post(*old(self), *final(self)),
    {
        self.rom_search.clear();
        self.view_mode = LibraryViewMode::List;
    }

    /// Forget the loaded games.
    pub fn clear_roms(&mut self)
        ensures
            Self::clear_roms_post(*old(self), *final(self)),
    {
        self.roms = None;
        self.rom_groups = None;
    }

    pub fn set_rom_loading(&mut self, loading: bool)
        ensures
            Self::set_rom_loading_post(*old(self), *final(self), loading),
    {
        self.rom_loading = loading;
    }

    /// Show a loaded ROM page: grouped by game, first game selected, loading done,
    /// game search cleared.
    pub fn set_roms(&mut self, roms: RomList)
        ensures
            final(self).roms == Some(roms),
            final(self).rom_groups matches Some(g) && groups_of(roms.items@, g@),
            !final(self).rom_loading,
            final(self).rom_selected == 0,
            final(self).scroll_offset == 0,
            final(self).rom_search.mode is None && !final(self).rom_search.filter_browsing,
            final(self).rom_search.query@.len() == 0,
            final(self).rom_search.normalized_query@.len() == 0,
            final(self).platforms == old(self).platforms,
            final(self).collections == old(self).collections,
            final(self).subsection == old(self).subsection,
            final(self).list_index == old(self).list_index,
            final(self).view_mode == old(self).view_mode,
            final(self).visible_rows == old(self).visible_rows,
            final(self).list_search == old(self).list_search,
            final(self).metadata_footer == old(self).metadata_footer,
    {
        let groups = group_roms_by_name(roms.items.as_slice());
        self.roms = Some(roms);
        self.rom_groups = Some(groups);
        self.rom_loading = false;
        self.rom_selected = 0;
        self.scroll_offset = 0;
        self.rom_search.clear();
    }

    // -- List search --------------------------------------------------------

    /// Open the list search bar in `mode` and select the first row.
    pub fn enter_list_search(&mut self, mode: LibrarySearchMode)
        ensures
            Self::enter_list_search_post(*old(self), *final(self), mode),
    {
        self.list_search.enter(mode);
        self.list_index = 0;
    }

    /// Close the list search and keep the selection on a visible row.
    pub fn clear_list_search(&mut self)
        ensures
            Self::clear_list_search_post(*old(self), *final(self)),
    {
        self.list_search.clear();
        self.clamp_list_index();
    }

    /// Jump to the next (`next`) or current-or-following row matching the list query.
    pub fn list_jump_match(&mut self, next: bool)
        ensures
            final(self).list_index == old(self).list_index || (final(self).list_index
                < old(self).visible_list().len() && jump_next_spec_opt(old(self), next) == Some(
                old(self).visible_list()[final(self).list_index as int] as int)),
            jump_next_spec_opt(old(self), next) matches Some(t) ==> (old(self).list_search.normalized_query@.len() > 0
                && old(self).labels().len() > 0 && old(self).visible_list().contains(t as usize)
                ==> old(self).visible_list()[final(self).list_index as int] == t),
            *final(self) == (LibraryBrowseScreen { list_index: final(self).list_index, ..*old(self) }),
    {
        if self.list_search.normalized_query.as_str().is_empty() {
            return;
        }
        let labels = self.list_row_labels();
        if labels.len() == 0 {
            return;
        }
        let sel = match self.selected_list_source_index() {
            Some(i) => i,
            None => 0,
        };
        let source = if sel < labels.len() - 1 {
            sel
        } else {
            labels.len() - 1
        };
        let found = jump_next_index(labels.as_slice(), source, self.list_search.normalized_query.as_str(), next);
        match found {
            Some(new_src) => {
                let visible = self.visible_list_source_indices();
                match position_of(visible.as_slice(), new_src) {
                    Some(pos) => {
                        self.list_index = pos;
                    },
                    None => {},
                }
            },
            None => {},
        }
    }

    /// Type a character into the list search: filters restart at the first row,
    /// jumps move to the first match from the selection.
    pub fn add_list_search_char(&mut self, c: char)
        ensures
            Self::add_list_search_char_post(*old(self), *final(self), c),
    {
        self.list_search.add_char(c);
        let ghost mid = *self;
        if matches!(self.list_search.mode, Some(LibrarySearchMode::Filter)) {
            self.list_index = 0;
        } else if matches!(self.list_search.mode, Some(LibrarySearchMode::Jump)) {
            self.list_jump_match(false);
            proof {
                assert(Self::list_jump_match_post(mid, *self, false));
            }
        }
        let ghost jumped = self.list_index;
        self.clamp_list_index();
        proof {
            if old(self).list_search.mode == Some(LibrarySearchMode::Jump) {
                assert(*self == (LibraryBrowseScreen {
                    list_index: self.list_index,
                    list_search: self.list_search,
                    ..*old(self)
                }));
                assert(mid == (LibraryBrowseScreen { list_search: self.list_search, ..*old(self) }));
                assert(Self::list_jump_match_post(
                    LibraryBrowseScreen { list_search: self.list_search, ..*old(self) },
                    LibraryBrowseScreen { list_index: jumped, list_search: self.list_search, ..*old(self) },
                    false,
                ));
            }
        }
    }

    /// Delete the last list search character; filters restart at the first row.
    pub fn delete_list_search_char(&mut self)
        ensures
            Self::delete_list_search_char_post(*old(self), *final(self)),
    {
        self.list_search.delete_char();
        if matches!(self.list_search.mode, Some(LibrarySearchMode::Filter)) {
            self.list_index = 0;
        }
        self.clamp_list_index();
    }

    /// Enter in the list search bar: close it (browse the matches after a filter).
    pub fn commit_list_filter_bar(&mut self)
        ensures
            Self::commit_list_filter_bar_post(*old(self), *final(self)),
    {
        self.list_search.commit_filter_bar();
        self.clamp_list_index();
    }

    // -- ROM search ---------------------------------------------------------

    /// Enter in the games search bar: close it (browse the matches after a filter).
    pub fn commit_rom_filter_bar(&mut self)
        ensures
            Self::commit_rom_filter_bar_post(*old(self), *final(self)),
    {
        self.rom_search.commit_filter_bar();
    }

    /// Open the games search bar in `mode` and select the first game.
    pub fn enter_rom_search(&mut self, mode: LibrarySearchMode)
        ensures
            Self::enter_rom_search_post(*old(self), *final(self), mode),
    {
        self.rom_search.enter(mode);
        self.rom_selected = 0;
        self.scroll_offset = 0;
    }

    /// Close the games search.
    pub fn clear_rom_search(&mut self)
        ensures
            Self::clear_rom_search_post(*old(self), *final(self)),
    {
        self.rom_search.clear();
    }

    /// Jump to the next (`next`) or current-or-following game matching the games query.
    pub fn jump_rom_match(&mut self, next: bool)
        ensures
            ({
                let names = old(self).group_names();
                let q = old(self).rom_search.normalized_query@;
                let src = if (old(self).rom_selected as int) < names.len() - 1 {
                    old(self).rom_selected as int
                } else {
                    names.len() - 1
                };
                if q.len() == 0 || old(self).rom_groups is None || names.len() == 0 {
                    *final(self) == *old(self)
                } else {
                    match crate::text_search::jump_next_spec(names, src, q, next) {
                        Some(t) => *final(self) == (LibraryBrowseScreen {
                            rom_selected: t as usize,
                            scroll_offset: scrolled(
                                t as usize,
                                old(self).scroll_offset,
                                old(self).visible_games().len() as usize,
                                old(self).visible_rows,
                            ),
                            ..*old(self)
                        }),
                        None => *final(self) == *old(self),
                    }
                }
            }),
    {
        if self.rom_search.normalized_query.as_str().is_empty() {
            return;
        }
        if self.rom_groups.is_none() {
            return;
        }
        let labels = self.group_name_list();
        if labels.len() == 0 {
            return;
        }
        let source = if self.rom_selected < labels.len() - 1 {
            self.rom_selected
        } else {
            labels.len() - 1
        };
        match jump_next_index(labels.as_slice(), source, self.rom_search.normalized_query.as_str(), next) {
            Some(idx) => {
                proof {
                    crate::text_search::lemma_jump_row_bound(
                        source as int,
                        labels@.len() as int,
                        next,
                        self.group_names(),
                        self.rom_search.normalized_query@,
                    );
                }
                self.rom_selected = idx;
                let v = self.visible_rows;
                self.update_rom_scroll(v);
            },
            None => {},
        }
    }

    /// Type a character into the games search: filters restart at the first game,
    /// jumps move to the first match from the selection.
    pub fn add_rom_search_char(&mut self, c: char)
        ensures
            Self::add_rom_search_char_post(*old(self), *final(self), c),
    {
        self.rom_search.add_char(c);
        let ghost mid = *self;
        if matches!(self.rom_search.mode, Some(LibrarySearchMode::Filter)) {
            self.rom_selected = 0;
            self.scroll_offset = 0;
        } else if matches!(self.rom_search.mode, Some(LibrarySearchMode::Jump)) {
            self.jump_rom_match(false);
            proof {
                assert(Self::jump_rom_match_post(mid, *self, false));
            }
        }
    }

    /// Delete the last games search character; filters restart at the first game.
    pub fn delete_rom_search_char(&mut self)
        ensures
            Self::delete_rom_search_char_post(*old(self), *final(self)),
    {
        self.rom_search.delete_char();
        if matches!(self.rom_search.mode, Some(LibrarySearchMode::Filter)) {
            self.rom_selected = 0;
            self.scroll_offset = 0;
        }
    }

    /// Title of the left pane.
    pub fn list_title(&self) -> (t: &'static str)
        ensures
            t@ == (match self.subsection {
                LibrarySubsection::ByConsole => "Consoles"@,
                LibrarySubsection::ByCollection => "Collections"@,
            }),
    {
        match self.subsection {
            LibrarySubsection::ByConsole => "Consoles",
            LibrarySubsection::ByCollection => "Collections",
        }
    }
}

/// First position of `x` in `v`.
pub fn position_of(v: &[usize], x: usize) -> (r: Option<usize>)
    ensures
        r matches Some(p) ==> p < v@.len() && v@[p as int] == x && forall|j: int|
            0 <= j < p ==> v@[j] != x,
        r is None ==> !v@.contains(x),
{
    let mut pos: usize = 0;
    while pos < v.len()
        invariant
            pos <= v@.len(),
            forall|j: int| 0 <= j < pos ==> v@[j] != x,
        decreases v@.len() - pos,
    {
        if v[pos] == x {
            return Some(pos);
        }
        pos += 1;
    }
    None
}

/// The jump target of the list search from the selected row.
pub open spec fn jump_next_spec_opt(s: &LibraryBrowseScreen, next: bool) -> Option<int> {
    let labels = s.labels();
    let sel = match s.selected_source() {
        Some(i) => i as int,
        None => 0,
    };
    let src = if sel < labels.len() - 1 {
        sel
    } else {
        labels.len() - 1
    };
    crate::text_search::jump_next_spec(labels, src, s.list_search.normalized_query@, next)
}

/// Positions `start..end`.
pub open spec fn position_window(start: int, end: int) -> Seq<int> {
    Seq::new((end - start) as nat, |k: int| start + k)
}

impl LibraryBrowseScreen {
    /// First row of subsection `sub` whose cache key is `k`.
    fn find_key_position(&self, sub: LibrarySubsection, k: &RomCacheKey) -> (r: Option<usize>)
        ensures
            r matches Some(p) ==> p < self.source_len(sub) && self.key_at(sub, p as int) == Some(k@)
                && forall|j: int| 0 <= j < p ==> self.key_at(sub, j) != Some(k@),
            r is None ==> forall|j: int| 0 <= j < self.source_len(sub) ==> self.key_at(sub, j) != Some(
                k@,
            ),
    {
        let n = match sub {
            LibrarySubsection::ByConsole => self.platforms.len(),
            LibrarySubsection::ByCollection => self.collections.len(),
        };
        let mut i: usize = 0;
        while i < n
            invariant
                n == self.source_len(sub),
                i <= n,
                forall|j: int| 0 <= j < i ==> self.key_at(sub, j) != Some(k@),
            decreases n - i,
        {
            let here = self.cache_key_for_position(sub, i);
            match here {
                Some(h) => {
                    if h.same(k) {
                        return Some(i);
                    }
                },
                None => {},
            }
            i += 1;
        }
        None
    }

    /// Replace the console and/or collection lists, keeping the subsection and, when the
    /// previously selected row still exists, its selection. Returns `true` when the selected
    /// row's identity or expected ROM count changed; the games pane is then reset.
    pub fn replace_metadata_preserving_selection(
        &mut self,
        platforms: Vec<Platform>,
        collections: Vec<Collection>,
        update_platforms: bool,
        update_collections: bool,
    ) -> (changed: bool)
        ensures
            final(self).platforms == (if update_platforms {
                platforms
            } else {
                old(self).platforms
            }),
            final(self).collections == (if update_collections {
                collections
            } else {
                old(self).collections
            }),
            final(self).subsection == old(self).subsection,
            final(self).list_search.mode is None && !final(self).list_search.filter_browsing,
            final(self).list_search.query@.len() == 0,
            final(self).list_search.normalized_query@.len() == 0,
            ({
                let sub = old(self).subsection;
                match old(self).selected_key() {
                    Some(k) => if exists|p: int|
                        0 <= p < final(self).source_len(sub) && final(self).key_at(sub, p) == Some(k) {
                        final(self).list_index < final(self).source_len(sub) && final(self).key_at(
                            sub,
                            final(self).list_index as int,
                        ) == Some(k) && forall|j: int|
                            0 <= j < final(self).list_index ==> final(self).key_at(sub, j) != Some(k)
                    } else {
                        final(self).list_index == 0
                    },
                    None => final(self).list_index == 0,
                }
            }),
            changed == (final(self).selected_key() != old(self).selected_key()
                || final(self).selected_expected() != old(self).selected_expected()),
            changed ==> final(self).roms is None && final(self).rom_groups is None
                && final(self).view_mode == LibraryViewMode::List && final(self).rom_selected == 0
                && final(self).scroll_offset == 0,
            !changed ==> final(self).roms == old(self).roms && final(self).rom_groups == old(
                self,
            ).rom_groups && final(self).view_mode == old(self).view_mode && final(self).rom_selected
                == old(self).rom_selected && final(self).scroll_offset == old(self).scroll_offset,
            final(self).rom_search == old(self).rom_search,
            final(self).rom_loading == old(self).rom_loading,
            final(self).visible_rows == old(self).visible_rows,
            final(self).metadata_footer == old(self).metadata_footer,
    {
        let subsection = self.subsection;
        let old_key = self.cache_key();
        let old_expected = self.expected_rom_count();
        if update_platforms {
            self.platforms = platforms;
        }
        if update_collections {
            self.collections = collections;
        }
        self.list_search.clear();
        let ghost mid = *self;
        let new_source = match &old_key {
            Some(k) => self.find_key_position(subsection, k),
            None => None,
        };
        self.list_index = match new_source {
            Some(p) => p,
            None => 0,
        };
        proof {
            assert(self.visible_list() =~= all_indices(self.labels().len()));
            assert(self.labels().len() == self.source_len(subsection));
        }
        self.clamp_list_index();
        proof {
            match new_source {
                Some(p) => {
                    assert(self.list_index == p);
                    assert(self.platforms == mid.platforms);
                    assert(self.collections == mid.collections);
                    let k = old_key.unwrap()@;
                    assert forall|j: int| 0 <= j < p implies self.key_at(subsection, j) != Some(k) by {
                        assert(mid.key_at(subsection, j) != Some(k));
                    }
                    assert(self.key_at(subsection, p as int) == Some(k));
                },
                None => {
                    assert(self.list_index == 0);
                    if old_key is Some {
                        let k = old_key.unwrap()@;
                        assert(self.platforms == mid.platforms);
                        assert(self.collections == mid.collections);
                        assert forall|q: int| 0 <= q < self.source_len(subsection) implies self.key_at(
                            subsection,
                            q,
                        ) != Some(k) by {
                            assert(mid.key_at(subsection, q) != Some(k));
                        }
                    }
                },
            }
        }
        let new_key = self.cache_key();
        let new_expected = self.expected_rom_count();
        let changed = !same_opt_key(&old_key, &new_key) || old_expected != new_expected;
        let ghost before = *self;
        if changed {
            self.clear_roms();
            self.view_mode = LibraryViewMode::List;
            self.rom_selected = 0;
            self.scroll_offset = 0;
        }
        proof {
            assert(self.platforms == before.platforms);
            assert(self.collections == before.collections);
            assert(self.list_index == before.list_index);
            assert forall|j: int| #![trigger self.key_at(subsection, j)] true implies self.key_at(
                subsection,
                j,
            ) == before.key_at(subsection, j) by {}
        }
        changed
    }

    /// Center of the collection prefetch window: the selection, clamped into the list.
    pub open spec fn prefetch_center(&self) -> int {
        let len = self.visible_list().len() as int;
        if (self.list_index as int) < len - 1 {
            self.list_index as int
        } else {
            len - 1
        }
    }

    /// Visible-list positions whose collections are prefetched for `radius`: the window of
    /// `radius` rows on each side of the selection, without the selection, keeping rows
    /// that have ROMs to request.
    pub open spec fn prefetch_positions(&self, radius: usize) -> Seq<int> {
        let len = self.visible_list().len() as int;
        let center = self.prefetch_center();
        let start = if center >= radius {
            center - radius
        } else {
            0
        };
        let end = if center + radius + 1 < len {
            center + radius + 1
        } else {
            len
        };
        crate::rom_group::keep(
            position_window(start, end),
            |pos: int|
                pos != center && self.request_at(
                    LibrarySubsection::ByCollection,
                    self.visible_list()[pos] as int,
                ) is Some,
        )
    }

    /// Near-neighbour collection prefetch candidates around the selection:
    /// (cache key, ROM request, expected count) for each prefetch position.
    pub fn collection_prefetch_candidates(&self, radius: usize) -> (out: Vec<(RomCacheKey, GetRoms, u64)>)
        requires
            self.visible_list().len() > 0 ==> self.prefetch_center() + radius + 1 <= usize::MAX,
        ensures
            self.subsection != LibrarySubsection::ByCollection ==> out@.len() == 0,
            self.subsection == LibrarySubsection::ByCollection ==> ({
                let ps = self.prefetch_positions(radius);
                &&& out@.len() == ps.len()
                &&& forall|k: int|
                    0 <= k < ps.len() ==> {
                        let src = self.visible_list()[ps[k]] as int;
                        &&& Some((#[trigger] out@[k]).0@) == self.key_at(
                            LibrarySubsection::ByCollection,
                            src,
                        )
                        &&& Some(out@[k].1) == self.request_at(LibrarySubsection::ByCollection, src)
                        &&& out@[k].2 == self.expected_at(LibrarySubsection::ByCollection, src)
                    }
            }),
    {
        let mut out: Vec<(RomCacheKey, GetRoms, u64)> = Vec::new();
        if self.subsection != LibrarySubsection::ByCollection {
            return out;
        }
        let visible = self.visible_list_source_indices();
        if visible.len() == 0 {
            proof {
                assert(position_window(0, 0) =~= Seq::<int>::empty());
            }
            return out;
        }
        let center = if self.list_index < visible.len() - 1 {
            self.list_index
        } else {
            visible.len() - 1
        };
        let start = if center >= radius {
            center - radius
        } else {
            0
        };
        let end = if center + radius + 1 < visible.len() {
            center + radius + 1
        } else {
            visible.len()
        };
        let ghost pred = |pos: int|
            pos != center && self.request_at(
                LibrarySubsection::ByCollection,
                self.visible_list()[pos] as int,
            ) is Some;
        let mut pos: usize = start;
        while pos < end
            invariant
                self.subsection == LibrarySubsection::ByCollection,
                visible@ == self.visible_list(),
                center == self.prefetch_center(),
                start <= pos <= end <= visible@.len(),
                pred == (|pos: int|
                    pos != center && self.request_at(
                        LibrarySubsection::ByCollection,
                        self.visible_list()[pos] as int,
                    ) is Some),
                ({
                    let ps = crate::rom_group::keep(position_window(start as int, pos as int), pred);
                    &&& out@.len() == ps.len()
                    &&& forall|k: int|
                        0 <= k < ps.len() ==> {
                            let src = self.visible_list()[ps[k]] as int;
                            &&& Some((#[trigger] out@[k]).0@) == self.key_at(
                                LibrarySubsection::ByCollection,
                                src,
                            )
                            &&& Some(out@[k].1) == self.request_at(
                                LibrarySubsection::ByCollection,
                                src,
                            )
                            &&& out@[k].2 == self.expected_at(LibrarySubsection::ByCollection, src)
                        }
                }),
            decreases end - pos,
        {
            proof {
                assert(position_window(start as int, pos + 1).drop_last() =~= position_window(
                    start as int,
                    pos as int,
                ));
                assert(position_window(start as int, pos + 1).last() == pos as int);
            }
            if pos != center {
                let src = visible[pos];
                let key = self.cache_key_for_position(LibrarySubsection::ByCollection, src);
                let req = self.get_roms_request_for_position(LibrarySubsection::ByCollection, src);
                match (key, req) {
                    (Some(k), Some(r)) => {
                        let expected = self.expected_rom_count_for_position(
                            LibrarySubsection::ByCollection,
                            src,
                        );
                        out.push((k, r, expected));
                    },
                    _ => {},
                }
            }
            pos += 1;
        }
        out
    }

    /// Message of the empty games pane.
    pub fn empty_rom_state_message(&self) -> (m: String)
        ensures
            m@ == (if self.rom_search.mode is Some {
                "No games match your search"@
            } else if self.rom_loading && self.selected_expected() > 0 {
                "Loading "@ + decimal(self.selected_expected() as nat) + " games... please wait"@
            } else {
                "Select a console or collection and press Enter to load ROMs"@
            }),
    {
        if self.rom_search.mode.is_some() {
            string_of("No games match your search")
        } else if self.rom_loading && self.expected_rom_count() > 0 {
            let n = u64_to_decimal(self.expected_rom_count());
            let a = concat("Loading ", n.as_str());
            concat(a.as_str(), " games... please wait")
        } else {
            string_of("Select a console or collection and press Enter to load ROMs")
        }
    }

    /// Platform name shown in the upload prompt: the selected console, `?` without a
    /// selection, or a hint to switch to consoles.
    pub fn upload_popup_platform_name(&self) -> (m: String)
        ensures
            m@ == (match self.subsection {
                LibrarySubsection::ByConsole => match self.selected_source() {
                    Some(i) => if (i as int) < self.platforms@.len() {
                        match self.platforms@[i as int].display_name {
                            Some(d) => d@,
                            None => self.platforms@[i as int].name@,
                        }
                    } else {
                        "?"@
                    },
                    None => "?"@,
                },
                LibrarySubsection::ByCollection => "(switch to Consoles — t)"@,
            }),
    {
        match self.subsection {
            LibrarySubsection::ByConsole => match self.selected_list_source_index() {
                Some(i) => if i < self.platforms.len() {
                    match &self.platforms[i].display_name {
                        Some(d) => string_of(d.as_str()),
                        None => string_of(self.platforms[i].name.as_str()),
                    }
                } else {
                    string_of("?")
                },
                None => string_of("?"),
            },
            LibrarySubsection::ByCollection => string_of("(switch to Consoles — t)"),
        }
    }
}

impl LibraryBrowseScreen {
    /// What `list_next` leaves: `o` before, `n` after.
    pub open spec fn list_next_post(o: LibraryBrowseScreen, n: LibraryBrowseScreen) -> bool {
        &&& n == (LibraryBrowseScreen {
            list_index: if o.visible_list().len() > 0 {
                ((o.list_index + 1) % (o.visible_list().len() as int)) as usize
            } else {
                o.list_index
            },
            ..o
        })
    }

    /// What `list_previous` leaves: `o` before, `n` after.
    pub open spec fn list_previous_post(o: LibraryBrowseScreen, n: LibraryBrowseScreen) -> bool {
        &&& n == (LibraryBrowseScreen {
            list_index: if o.visible_list().len() > 0 {
                if o.list_index == 0 {
                    (o.visible_list().len() - 1) as usize
                } else {
                    (o.list_index - 1) as usize
                }
            } else {
                o.list_index
            },
            ..o
        })
    }

    /// What `rom_next` leaves: `o` before, `n` after.
    pub open spec fn rom_next_post(o: LibraryBrowseScreen, n: LibraryBrowseScreen) -> bool {
        &&& ({
            let len = o.visible_games().len();
            if len > 0 {
                let sel = ((o.rom_selected + 1) % (len as int)) as usize;
                n == (LibraryBrowseScreen {
                    rom_selected: sel,
                    scroll_offset: scrolled(
                        sel,
                        o.scroll_offset,
                        len as usize,
                        o.visible_rows,
                    ),
                    ..o
                })
            } else {
                n == o
            }
        })
    }

    /// What `rom_previous` leaves: `o` before, `n` after.
    pub open spec fn rom_previous_post(o: LibraryBrowseScreen, n: LibraryBrowseScreen) -> bool {
        &&& ({
            let len = o.visible_games().len();
            if len > 0 {
                let sel = if o.rom_selected == 0 {
                    (len - 1) as usize
                } else {
                    (o.rom_selected - 1) as usize
                };
                n == (LibraryBrowseScreen {
                    rom_selected: sel,
                    scroll_offset: scrolled(
                        sel,
                        o.scroll_offset,
                        len as usize,
                        o.visible_rows,
                    ),
                    ..o
                })
            } else {
                n == o
            }
        })
    }

    /// What `switch_subsection` leaves: `o` before, `n` after.
    pub open spec fn switch_subsection_post(o: LibraryBrowseScreen, n: LibraryBrowseScreen) -> bool {
        &&& n.subsection == (match o.subsection {
            LibrarySubsection::ByConsole => LibrarySubsection::ByCollection,
            LibrarySubsection::ByCollection => LibrarySubsection::ByConsole,
        })
        &&& n.list_index == 0
        &&& n.roms is None
        &&& !n.rom_loading
        &&& n.view_mode == LibraryViewMode::List
        &&& n.list_search.mode is None && !n.list_search.filter_browsing
        &&& n.list_search.query@.len() == 0
        &&& n.list_search.normalized_query@.len() == 0
        &&& n.platforms == o.platforms
        &&& n.collections == o.collections
        &&& n.rom_groups == o.rom_groups
        &&& n.rom_selected == o.rom_selected
        &&& n.scroll_offset == o.scroll_offset
        &&& n.visible_rows == o.visible_rows
        &&& n.rom_search == o.rom_search
        &&& n.metadata_footer == o.metadata_footer
    }

    /// What `switch_view` leaves: `o` before, `n` after.
    pub open spec fn switch_view_post(o: LibraryBrowseScreen, n: LibraryBrowseScreen) -> bool {
        &&& n.view_mode == (match o.view_mode {
            LibraryViewMode::List => LibraryViewMode::Roms,
            LibraryViewMode::Roms => LibraryViewMode::List,
        })
        &&& n.rom_selected == 0
        &&& n.scroll_offset == 0
        &&& o.view_mode == LibraryViewMode::List ==> n.list_search.mode is None
            && !n.list_search.filter_browsing && n.list_search.query@.len()
            == 0 && n.list_search.normalized_query@.len() == 0 && n.rom_search
            == o.rom_search
        &&& o.view_mode == LibraryViewMode::Roms ==> n.rom_search.mode is None
            && !n.rom_search.filter_browsing && n.rom_search.query@.len() == 0
            && n.rom_search.normalized_query@.len() == 0 && n.list_search
            == o.list_search
        &&& n.platforms == o.platforms
        &&& n.collections == o.collections
        &&& n.subsection == o.subsection
        &&& n.list_index == o.list_index
        &&& n.roms == o.roms
        &&& n.rom_groups == o.rom_groups
        &&& n.visible_rows == o.visible_rows
        &&& n.metadata_footer == o.metadata_footer
        &&& n.rom_loading == o.rom_loading
    }

    /// What `back_to_list` leaves: `o` before, `n` after.
    pub open spec fn back_to_list_post(o: LibraryBrowseScreen, n: LibraryBrowseScreen) -> bool {
        &&& n.view_mode == LibraryViewMode::List
        &&& n.rom_search.mode is None && !n.rom_search.filter_browsing
        &&& n.rom_search.query@.len() == 0
        &&& n.rom_search.normalized_query@.len() == 0
        &&& n == (LibraryBrowseScreen {
            view_mode: LibraryViewMode::List,
            rom_search: n.rom_search,
            ..o
        })
    }

    /// What `clear_roms` leaves: `o` before, `n` after.
    pub open spec fn clear_roms_post(o: LibraryBrowseScreen, n: LibraryBrowseScreen) -> bool {
        &&& n == (LibraryBrowseScreen { roms: None, rom_groups: None, ..o })
    }

    /// What `set_rom_loading` leaves: `o` before, `n` after.
    pub open spec fn set_rom_loading_post(o: LibraryBrowseScreen, n: LibraryBrowseScreen, loading: bool) -> bool {
        &&& n == (LibraryBrowseScreen { rom_loading: loading, ..o })
    }

    /// What `enter_list_search` leaves: `o` before, `n` after.
    pub open spec fn enter_list_search_post(o: LibraryBrowseScreen, n: LibraryBrowseScreen, mode: LibrarySearchMode) -> bool {
        &&& n.list_search.mode == Some(mode)
        &&& !n.list_search.filter_browsing
        &&& n.list_search.query@.len() == 0
        &&& n.list_search.normalized_query@.len() == 0
        &&& n == (LibraryBrowseScreen {
            list_index: 0,
            list_search: n.list_search,
            ..o
        })
    }

    /// What `clear_list_search` leaves: `o` before, `n` after.
    pub open spec fn clear_list_search_post(o: LibraryBrowseScreen, n: LibraryBrowseScreen) -> bool {
        &&& n.list_search.mode is None && !n.list_search.filter_browsing
        &&& n.list_search.query@.len() == 0
        &&& n.list_search.normalized_query@.len() == 0
        &&& n == (LibraryBrowseScreen {
            list_search: n.list_search,
            list_index: if o.list_index < n.visible_list().len() {
                o.list_index
            } else {
                0
            },
            ..o
        })
    }

    /// What `list_jump_match` leaves: `o` before, `n` after.
    pub open spec fn list_jump_match_post(o: LibraryBrowseScreen, n: LibraryBrowseScreen, next: bool) -> bool {
        &&& n.list_index == o.list_index || (n.list_index
            < o.visible_list().len() && jump_next_spec_opt(&o, next) == Some(
            o.visible_list()[n.list_index as int] as int))
        &&& jump_next_spec_opt(&o, next) matches Some(t) ==> (o.list_search.normalized_query@.len() > 0
            && o.labels().len() > 0 && o.visible_list().contains(t as usize)
            ==> o.visible_list()[n.list_index as int] == t)
        &&& n == (LibraryBrowseScreen { list_index: n.list_index, ..o })
    }

    /// What `add_list_search_char` leaves: `o` before, `n` after.
    pub open spec fn add_list_search_char_post(o: LibraryBrowseScreen, n: LibraryBrowseScreen, c: char) -> bool {
        &&& n.list_search.query@ == o.list_search.query@.push(c)
        &&& n.list_search.normalized_query@ == normalize_spec(n.list_search.query@)
        &&& n.list_search.mode == o.list_search.mode
        &&& n.list_search.filter_browsing == o.list_search.filter_browsing
        &&& n.list_index < n.visible_list().len() || n.list_index == 0
        &&& o.list_search.mode == Some(LibrarySearchMode::Filter) ==> n.list_index
            == 0
        &&& o.list_search.mode == Some(LibrarySearchMode::Jump) ==> exists|j: usize|
            {
                &&& #[trigger] Self::list_jump_match_post(
                    LibraryBrowseScreen { list_search: n.list_search, ..o },
                    LibraryBrowseScreen { list_index: j, list_search: n.list_search, ..o },
                    false,
                )
                &&& n.list_index == if j < n.visible_list().len() {
                    j
                } else {
                    0
                }
            }
        &&& o.list_search.mode is None ==> n.list_index == if o.list_index
            < n.visible_list().len() {
            o.list_index
        } else {
            0
        }
        &&& n == (LibraryBrowseScreen {
            list_index: n.list_index,
            list_search: n.list_search,
            ..o
        })
    }

    /// What `delete_list_search_char` leaves: `o` before, `n` after.
    pub open spec fn delete_list_search_char_post(o: LibraryBrowseScreen, n: LibraryBrowseScreen) -> bool {
        &&& n.list_search.query@ == (if o.list_search.query@.len() == 0 {
            o.list_search.query@
        } else {
            o.list_search.query@.drop_last()
        })
        &&& n.list_search.normalized_query@ == normalize_spec(n.list_search.query@)
        &&& n.list_search.mode == o.list_search.mode
        &&& n.list_search.filter_browsing == o.list_search.filter_browsing
        &&& n.list_index == (if o.list_search.mode == Some(
            LibrarySearchMode::Filter,
        ) || o.list_index >= n.visible_list().len() {
            0
        } else {
            o.list_index
        })
        &&& n == (LibraryBrowseScreen {
            list_index: n.list_index,
            list_search: n.list_search,
            ..o
        })
    }

    /// What `commit_list_filter_bar` leaves: `o` before, `n` after.
    pub open spec fn commit_list_filter_bar_post(o: LibraryBrowseScreen, n: LibraryBrowseScreen) -> bool {
        &&& n.list_search.mode is None
        &&& n.list_search.query == o.list_search.query
        &&& n.list_search.normalized_query == o.list_search.normalized_query
        &&& n.list_search.filter_browsing == (if o.list_search.mode == Some(
            LibrarySearchMode::Filter,
        ) {
            crate::text::trim_spec(o.list_search.query@).len() > 0
        } else {
            o.list_search.filter_browsing
        })
        &&& n.list_index == (if o.list_index < n.visible_list().len() {
            o.list_index
        } else {
            0
        })
        &&& n == (LibraryBrowseScreen {
            list_index: n.list_index,
            list_search: n.list_search,
            ..o
        })
    }

    /// What `commit_rom_filter_bar` leaves: `o` before, `n` after.
    pub open spec fn commit_rom_filter_bar_post(o: LibraryBrowseScreen, n: LibraryBrowseScreen) -> bool {
        &&& n.rom_search.mode is None
        &&& n.rom_search.query == o.rom_search.query
        &&& n.rom_search.normalized_query == o.rom_search.normalized_query
        &&& n.rom_search.filter_browsing == (if o.rom_search.mode == Some(
            LibrarySearchMode::Filter,
        ) {
            crate::text::trim_spec(o.rom_search.query@).len() > 0
        } else {
            o.rom_search.filter_browsing
        })
        &&& n == (LibraryBrowseScreen { rom_search: n.rom_search, ..o })
    }

    /// What `enter_rom_search` leaves: `o` before, `n` after.
    pub open spec fn enter_rom_search_post(o: LibraryBrowseScreen, n: LibraryBrowseScreen, mode: LibrarySearchMode) -> bool {
        &&& n.rom_search.mode == Some(mode)
        &&& !n.rom_search.filter_browsing
        &&& n.rom_search.query@.len() == 0
        &&& n.rom_search.normalized_query@.len() == 0
        &&& n == (LibraryBrowseScreen {
            rom_selected: 0,
            scroll_offset: 0,
            rom_search: n.rom_search,
            ..o
        })
    }

    /// What `clear_rom_search` leaves: `o` before, `n` after.
    pub open spec fn clear_rom_search_post(o: LibraryBrowseScreen, n: LibraryBrowseScreen) -> bool {
        &&& n.rom_search.mode is None && !n.rom_search.filter_browsing
        &&& n.rom_search.query@.len() == 0
        &&& n.rom_search.normalized_query@.len() == 0
        &&& n == (LibraryBrowseScreen { rom_search: n.rom_search, ..o })
    }

    /// What `jump_rom_match` leaves: `o` before, `n` after.
    pub open spec fn jump_rom_match_post(o: LibraryBrowseScreen, n: LibraryBrowseScreen, next: bool) -> bool {
        &&& ({
            let names = o.group_names();
            let q = o.rom_search.normalized_query@;
            let src = if (o.rom_selected as int) < names.len() - 1 {
                o.rom_selected as int
            } else {
                names.len() - 1
            };
            if q.len() == 0 || o.rom_groups is None || names.len() == 0 {
                n == o
            } else {
                match crate::text_search::jump_next_spec(names, src, q, next) {
                    Some(t) => n == (LibraryBrowseScreen {
                        rom_selected: t as usize,
                        scroll_offset: scrolled(
                            t as usize,
                            o.scroll_offset,
                            o.visible_games().len() as usize,
                            o.visible_rows,
                        ),
                        ..o
                    }),
                    None => n == o,
                }
            }
        })
    }

    /// What `add_rom_search_char` leaves: `o` before, `n` after.
    pub open spec fn add_rom_search_char_post(o: LibraryBrowseScreen, n: LibraryBrowseScreen, c: char) -> bool {
        &&& n.rom_search.query@ == o.rom_search.query@.push(c)
        &&& n.rom_search.normalized_query@ == normalize_spec(n.rom_search.query@)
        &&& n.rom_search.mode == o.rom_search.mode
        &&& n.rom_search.filter_browsing == o.rom_search.filter_browsing
        &&& o.rom_search.mode == Some(LibrarySearchMode::Filter) ==> n.rom_selected
            == 0 && n.scroll_offset == 0
        &&& o.rom_search.mode is None ==> n.rom_selected == o.rom_selected
            && n.scroll_offset == o.scroll_offset
        &&& o.rom_search.mode == Some(LibrarySearchMode::Jump) ==> Self::jump_rom_match_post(
            LibraryBrowseScreen { rom_search: n.rom_search, ..o },
            n,
            false,
        )
        &&& n == (LibraryBrowseScreen {
            rom_selected: n.rom_selected,
            scroll_offset: n.scroll_offset,
            rom_search: n.rom_search,
            ..o
        })
    }

    /// What `delete_rom_search_char` leaves: `o` before, `n` after.
    pub open spec fn delete_rom_search_char_post(o: LibraryBrowseScreen, n: LibraryBrowseScreen) -> bool {
        &&& n.rom_search.query@ == (if o.rom_search.query@.len() == 0 {
            o.rom_search.query@
        } else {
            o.rom_search.query@.drop_last()
        })
        &&& n.rom_search.normalized_query@ == normalize_spec(n.rom_search.query@)
        &&& n.rom_search.mode == o.rom_search.mode
        &&& n.rom_search.filter_browsing == o.rom_search.filter_browsing
        &&& n == (LibraryBrowseScreen {
            rom_selected: if o.rom_search.mode == Some(LibrarySearchMode::Filter) {
                0
            } else {
                o.rom_selected
            },
            scroll_offset: if o.rom_search.mode == Some(LibrarySearchMode::Filter) {
                0
            } else {
                o.scroll_offset
            },
            rom_search: n.rom_search,
            ..o
        })
    }
}


/// In the consoles/collections list, moving down and then up returns to the selected row.
pub proof fn lemma_list_next_then_previous(
    o: LibraryBrowseScreen,
    m: LibraryBrowseScreen,
    n: LibraryBrowseScreen,
)
    requires
        o.list_index < o.visible_list().len() <= usize::MAX,
        LibraryBrowseScreen::list_next_post(o, m),
        LibraryBrowseScreen::list_previous_post(m, n),
    ensures
        n == o,
{
    let len = o.visible_list().len() as int;
    assert(m.visible_list() == o.visible_list());
    if o.list_index + 1 < len {
        assert((o.list_index + 1) % len == o.list_index + 1) by (nonlinear_arith)
            requires
                0 <= o.list_index + 1 < len,
        ;
        assert(m.list_index == o.list_index + 1);
    } else {
        assert((o.list_index + 1) % len == 0) by (nonlinear_arith)
            requires
                o.list_index + 1 == len,
                len > 0,
        ;
        assert(m.list_index == 0);
    }
    assert(n.list_index == o.list_index);
}

/// In the games table, moving down and then up returns to the selected game; only the
/// scroll position may differ, and it keeps that game in view.
pub proof fn lemma_rom_next_then_previous(
    o: LibraryBrowseScreen,
    m: LibraryBrowseScreen,
    n: LibraryBrowseScreen,
)
    requires
        o.rom_selected < o.visible_games().len() <= usize::MAX,
        LibraryBrowseScreen::rom_next_post(o, m),
        LibraryBrowseScreen::rom_previous_post(m, n),
    ensures
        n == (LibraryBrowseScreen { scroll_offset: n.scroll_offset, ..o }),
{
    let len = o.visible_games().len() as int;
    assert(m.visible_games() == o.visible_games());
    if o.rom_selected + 1 < len {
        assert((o.rom_selected + 1) % len == o.rom_selected + 1) by (nonlinear_arith)
            requires
                0 <= o.rom_selected + 1 < len,
        ;
        assert(m.rom_selected == o.rom_selected + 1);
    } else {
        assert((o.rom_selected + 1) % len == 0) by (nonlinear_arith)
            requires
                o.rom_selected + 1 == len,
                len > 0,
        ;
        assert(m.rom_selected == 0);
    }
    assert(n.rom_selected == o.rom_selected);
}


/// In the games search bar, typing a character and then deleting it gives the query, its
/// normalized form and the mode back, and leaves the games as they were.
pub proof fn lemma_rom_search_type_then_delete(
    o: LibraryBrowseScreen,
    m: LibraryBrowseScreen,
    n: LibraryBrowseScreen,
    c: char,
)
    requires
        o.rom_search.normalized_query@ == normalize_spec(o.rom_search.query@),
        LibraryBrowseScreen::add_rom_search_char_post(o, m, c),
        LibraryBrowseScreen::delete_rom_search_char_post(m, n),
    ensures
        n.rom_search.query@ == o.rom_search.query@,
        n.rom_search.normalized_query@ == o.rom_search.normalized_query@,
        n.rom_search.mode == o.rom_search.mode,
        n.roms == o.roms,
        n.rom_groups == o.rom_groups,
{
    assert(o.rom_search.query@.push(c).drop_last() =~= o.rom_search.query@);
}

/// In the consoles/collections search bar, typing a character and then deleting it gives the
/// query, its normalized form and the mode back, and leaves the lists as they were.
pub proof fn lemma_list_search_type_then_delete(
    o: LibraryBrowseScreen,
    m: LibraryBrowseScreen,
    n: LibraryBrowseScreen,
    c: char,
)
    requires
        o.list_search.normalized_query@ == normalize_spec(o.list_search.query@),
        LibraryBrowseScreen::add_list_search_char_post(o, m, c),
        LibraryBrowseScreen::delete_list_search_char_post(m, n),
    ensures
        n.list_search.query@ == o.list_search.query@,
        n.list_search.normalized_query@ == o.list_search.normalized_query@,
        n.list_search.mode == o.list_search.mode,
        n.platforms == o.platforms,
        n.collections == o.collections,
{
    assert(o.list_search.query@.push(c).drop_last() =~= o.list_search.query@);
}

/// In the games search bar, deleting the last character and typing it again gives the
/// query, its normalized form and the mode back, and leaves the games as they were.
pub proof fn lemma_rom_search_delete_then_retype(
    o: LibraryBrowseScreen,
    m: LibraryBrowseScreen,
    n: LibraryBrowseScreen,
)
    requires
        o.rom_search.query@.len() > 0,
        o.rom_search.normalized_query@ == normalize_spec(o.rom_search.query@),
        LibraryBrowseScreen::delete_rom_search_char_post(o, m),
        LibraryBrowseScreen::add_rom_search_char_post(m, n, o.rom_search.query@.last()),
    ensures
        n.rom_search.query@ == o.rom_search.query@,
        n.rom_search.normalized_query@ == o.rom_search.normalized_query@,
        n.rom_search.mode == o.rom_search.mode,
        n.roms == o.roms,
        n.rom_groups == o.rom_groups,
{
    assert(o.rom_search.query@.drop_last().push(o.rom_search.query@.last())
        =~= o.rom_search.query@);
}

/// In the consoles/collections search bar, deleting the last character and typing it again
/// gives the query, its normalized form and the mode back, and leaves the lists as they were.
pub proof fn lemma_list_search_delete_then_retype(
    o: LibraryBrowseScreen,
    m: LibraryBrowseScreen,
    n: LibraryBrowseScreen,
)
    requires
        o.list_search.query@.len() > 0,
        o.list_search.normalized_query@ == normalize_spec(o.list_search.query@),
        LibraryBrowseScreen::delete_list_search_char_post(o, m),
        LibraryBrowseScreen::add_list_search_char_post(m, n, o.list_search.query@.last()),
    ensures
        n.list_search.query@ == o.list_search.query@,
        n.list_search.normalized_query@ == o.list_search.normalized_query@,
        n.list_search.mode == o.list_search.mode,
        n.platforms == o.platforms,
        n.collections == o.collections,
{
    assert(o.list_search.query@.drop_last().push(o.list_search.query@.last())
        =~= o.list_search.query@);
}

/// In the consoles view, each row's label begins with the platform's display name when it
/// has one, and with its name otherwise; the ROM count follows in parentheses.
pub proof fn lemma_console_row_label_names_platform(s: LibraryBrowseScreen, i: int)
    requires
        s.subsection == LibrarySubsection::ByConsole,
        0 <= i < s.platforms@.len(),
    ensures
        s.platforms@[i].display_name matches Some(d) ==> s.labels()[i].take(d@.len() as int)
            == d@,
        s.platforms@[i].display_name is None ==> s.labels()[i].take(
            s.platforms@[i].name@.len() as int,
        ) == s.platforms@[i].name@,
        s.labels()[i].len() > match s.platforms@[i].display_name {
            Some(d) => d@.len(),
            None => s.platforms@[i].name@.len(),
        },
{
    let p = s.platforms@[i];
    let l = s.labels()[i];
    assert(l == platform_label(p));
    let shown = match p.display_name {
        Some(d) => d@,
        None => p.name@,
    };
    let rest = " ("@ + decimal(p.rom_count as nat) + " roms)"@;
    assert(l =~= shown + rest);
    assert(l.take(shown.len() as int) =~= shown);
    reveal_strlit(" (");
    assert(rest.len() > 0);
}

} // verus!
