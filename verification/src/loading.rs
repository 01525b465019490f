//! Decisions around loading ROM lists: which request a selection needs, when a finished load
//! still applies, how pages follow each other, and the collection prefetch queue.

use vstd::prelude::*;
use crate::cache::{opt_key_view, RomCacheKey, RomCacheKeyView};
use crate::library_browse::{LibraryBrowseScreen, LibrarySubsection};
use crate::requests::GetRoms;
use crate::rom_group::groups_of;
use crate::text::{concat, string_of, string_push};
use crate::types::RomList;

verus! {

/// Most ROMs read for one list by paging.
pub const ROM_PAGE_CEILING: u64 = 20000;

/// Most collection prefetches running at once.
pub const PREFETCH_MAX_INFLIGHT: usize = 2;

/// A primary ROM load whose completion still counts only if its generation is the latest.
pub fn primary_rom_load_result_is_current(done_gen: u64, current_gen: u64) -> (b: bool)
    ensures
        b == (done_gen == current_gen),
{
    done_gen == current_gen
}

/// The ROM request of the selected row, for the subsection shown.
pub open spec fn selected_request(lib: LibraryBrowseScreen) -> Option<GetRoms> {
    match lib.selected_source() {
        Some(i) => lib.request_at(lib.subsection, i as int),
        None => None,
    }
}

/// ROM request for the library's selected row (console or collection, as shown).
pub fn selected_rom_request_for_library(lib: &LibraryBrowseScreen) -> (r: Option<GetRoms>)
    ensures
        r == selected_request(*lib),
{
    match lib.subsection {
        LibrarySubsection::ByConsole => lib.get_roms_request_platform(),
        LibrarySubsection::ByCollection => lib.get_roms_request_collection(),
    }
}

/// A ROM load to start on the next loop turn: cache key, request, expected count and the
/// reason it was queued.
pub struct DeferredRomLoad {
    pub key: Option<RomCacheKey>,
    pub request: Option<GetRoms>,
    pub expected: u64,
    pub context: &'static str,
}

/// The load a library selection asks for.
pub open spec fn load_for_selection(lib: LibraryBrowseScreen, d: DeferredRomLoad) -> bool {
    &&& opt_key_view(d.key) == lib.selected_key()
    &&& d.request == selected_request(lib)
    &&& d.expected == lib.selected_expected()
}

/// After the selected row changed: when it has games, mark the games pane loading and return
/// the load to start; otherwise mark it idle and return none.
pub fn load_selected_roms(lib: &mut LibraryBrowseScreen, context: &'static str) -> (r: Option<
    DeferredRomLoad,
>)
    ensures
        *final(lib) == (LibraryBrowseScreen {
            rom_loading: old(lib).selected_expected() > 0,
            ..*old(lib)
        }),
        old(lib).selected_expected() > 0 <==> r is Some,
        r matches Some(d) ==> load_for_selection(*old(lib), d) && d.context@ == context@,
{
    let expected = lib.expected_rom_count();
    if expected > 0 {
        let key = lib.cache_key();
        let request = selected_rom_request_for_library(lib);
        lib.set_rom_loading(true);
        Some(DeferredRomLoad { key, request, expected, context })
    } else {
        lib.set_rom_loading(false);
        None
    }
}

/// After a metadata refresh moved the selection: the games pane is loading exactly when the
/// row has games, and a load is queued in any case.
pub fn reload_after_refresh(lib: &mut LibraryBrowseScreen) -> (d: DeferredRomLoad)
    ensures
        *final(lib) == (LibraryBrowseScreen {
            rom_loading: old(lib).selected_expected() > 0,
            ..*old(lib)
        }),
        load_for_selection(*old(lib), d),
        d.context@ == "refresh_selection"@,
{
    let key = lib.cache_key();
    let expected = lib.expected_rom_count();
    let request = selected_rom_request_for_library(lib);
    lib.set_rom_loading(expected > 0);
    DeferredRomLoad { key, request, expected, context: "refresh_selection" }
}

/// The request for the page after the `loaded` ROMs read so far, while fewer than `total`
/// and fewer than the paging ceiling are loaded.
pub fn next_page_request(req: &GetRoms, loaded: usize, total: u64) -> (r: Option<GetRoms>)
    ensures
        (loaded < total && loaded < ROM_PAGE_CEILING) <==> r is Some,
        r matches Some(n) ==> n == (GetRoms { offset: Some(loaded as u32), ..*req }),
{
    if (loaded as u64) < total && (loaded as u64) < ROM_PAGE_CEILING {
        let next = GetRoms {
            search_term: req.search_term.clone(),
            platform_id: req.platform_id,
            collection_id: req.collection_id,
            smart_collection_id: req.smart_collection_id,
            virtual_collection_id: req.virtual_collection_id.clone(),
            limit: req.limit,
            offset: Some(loaded as u32),
        };
        assert(next.search_term == req.search_term);
        assert(next.virtual_collection_id == req.virtual_collection_id);
        Some(next)
    } else {
        None
    }
}

/// Apply a finished primary ROM load to the library: a load of an older generation is ignored
/// (`false`); otherwise the games are shown, or the failure is put in the footer, and loading
/// ends (`true`).
pub fn apply_rom_load_result(
    lib: &mut LibraryBrowseScreen,
    done_gen: u64,
    current_gen: u64,
    result: Result<RomList, String>,
) -> (applied: bool)
    ensures
        applied == (done_gen == current_gen),
        !applied ==> *final(lib) == *old(lib),
        applied ==> !final(lib).rom_loading,
        applied ==> match result {
            Ok(roms) => {
                &&& final(lib).roms == Some(roms)
                &&& final(lib).rom_groups matches Some(g) && groups_of(roms.items@, g@)
                &&& final(lib).rom_selected == 0
                &&& final(lib).list_index == old(lib).list_index
                &&& final(lib).subsection == old(lib).subsection
            },
            Err(e) => {
                &&& final(lib).metadata_footer matches Some(m) && m@ == "Could not load games: "@
                    + e@
                &&& *final(lib) == (LibraryBrowseScreen {
                    metadata_footer: final(lib).metadata_footer,
                    rom_loading: false,
                    ..*old(lib)
                })
            },
        },
{
    if !primary_rom_load_result_is_current(done_gen, current_gen) {
        return false;
    }
    match result {
        Ok(roms) => {
            lib.set_roms(roms);
        },
        Err(e) => {
            let msg = concat("Could not load games: ", e.as_str());
            lib.set_metadata_footer(Some(msg));
        },
    }
    lib.set_rom_loading(false);
    true
}

// ---------------------------------------------------------------------------
// Metadata refresh
// ---------------------------------------------------------------------------

/// `parts` joined with `sep`.
pub open spec fn joined(parts: Seq<Seq<char>>, sep: Seq<char>) -> Seq<char>
    decreases parts.len(),
{
    if parts.len() == 0 {
        Seq::empty()
    } else if parts.len() == 1 {
        parts[0]
    } else {
        joined(parts.drop_last(), sep) + sep + parts.last()
    }
}

/// Footer text after a metadata refresh: whether anything changed, or the warnings joined by
/// ` | ` (over 160 characters: the first 157 and an ellipsis).
pub open spec fn refresh_footer(warnings: Seq<Seq<char>>, digest_changed: bool) -> Seq<char> {
    if warnings.len() == 0 {
        if digest_changed {
            "Collection metadata updated."@
        } else {
            "Collection metadata already up to date."@
        }
    } else {
        let w = joined(warnings, " | "@);
        let short = if w.len() > 160 {
            w.take(157).push('…')
        } else {
            w
        };
        "Partial refresh: "@ + short
    }
}

/// See `refresh_footer`.
pub fn metadata_refresh_footer(warnings: &[String], digest_changed: bool) -> (out: String)
    ensures
        out@ == refresh_footer(warnings@.map_values(|w: String| w@), digest_changed),
{
    let ghost ws = warnings@.map_values(|w: String| w@);
    if warnings.len() == 0 {
        if digest_changed {
            return string_of("Collection metadata updated.");
        } else {
            return string_of("Collection metadata already up to date.");
        }
    }
    let mut w = string_of(warnings[0].as_str());
    let mut i: usize = 1;
    assert(ws.take(1) =~= seq![ws[0]]);
    while i < warnings.len()
        invariant
            1 <= i <= warnings@.len(),
            ws == warnings@.map_values(|w: String| w@),
            w@ == joined(ws.take(i as int), " | "@),
        decreases warnings@.len() - i,
    {
        assert(ws.take(i + 1).drop_last() =~= ws.take(i as int));
        let a = concat(w.as_str(), " | ");
        w = concat(a.as_str(), warnings[i].as_str());
        i += 1;
    }
    assert(ws.take(warnings@.len() as int) =~= ws);
    let cs = crate::text::chars_of(w.as_str());
    let short = if cs.len() > 160 {
        let mut t = String::new();
        let mut k: usize = 0;
        while k < 157
            invariant
                k <= 157,
                cs@.len() > 160,
                t@ == cs@.take(k as int),
            decreases 157 - k,
        {
            string_push(&mut t, cs[k]);
            assert(cs@.take(k + 1) =~= cs@.take(k as int).push(cs@[k as int]));
            k += 1;
        }
        string_push(&mut t, '…');
        t
    } else {
        w
    };
    concat("Partial refresh: ", short.as_str())
}

// ---------------------------------------------------------------------------
// Collection prefetch queue
// ---------------------------------------------------------------------------

/// Pending and running collection prefetches. The queue is served last-in first-out; at
/// most `PREFETCH_MAX_INFLIGHT` run at once; no key is queued twice or both queued and running.
pub struct PrefetchScheduler {
    queue: Vec<(RomCacheKey, GetRoms, u64)>,
    inflight: Vec<RomCacheKey>,
}

/// No key occurs twice.
pub open spec fn distinct_keys(s: Seq<RomCacheKeyView>) -> bool {
    forall|i: int, j: int| 0 <= i < j < s.len() ==> s[i] != s[j]
}

impl PrefetchScheduler {
    #[verifier::type_invariant]
    spec fn well_formed(self) -> bool {
        &&& distinct_keys(self.queue_keys())
        &&& distinct_keys(self.inflight())
        &&& self.inflight().len() <= PREFETCH_MAX_INFLIGHT
        &&& forall|k: RomCacheKeyView| #[trigger]
            self.queue_keys().contains(k) ==> !self.inflight().contains(k)
    }

    /// Queued prefetches, oldest first.
    pub closed spec fn queue(self) -> Seq<(RomCacheKey, GetRoms, u64)> {
        self.queue@
    }

    /// Keys of the queued prefetches, oldest first.
    pub closed spec fn queue_keys(self) -> Seq<RomCacheKeyView> {
        self.queue@.map_values(|e: (RomCacheKey, GetRoms, u64)| e.0@)
    }

    /// Keys of the running prefetches.
    pub closed spec fn inflight(self) -> Seq<RomCacheKeyView> {
        self.inflight@.map_values(|k: RomCacheKey| k@)
    }

    /// The invariant that every operation keeps.
    pub open spec fn invariant_holds(self) -> bool {
        &&& distinct_keys(self.queue_keys())
        &&& distinct_keys(self.inflight())
        &&& self.inflight().len() <= PREFETCH_MAX_INFLIGHT
        &&& forall|k: RomCacheKeyView| #[trigger]
            self.queue_keys().contains(k) ==> !self.inflight().contains(k)
    }

    pub fn new() -> (s: PrefetchScheduler)
        ensures
            s.queue().len() == 0,
            s.inflight().len() == 0,
            s.invariant_holds(),
    {
        let s = PrefetchScheduler { queue: Vec::new(), inflight: Vec::new() };
        assert(s.queue_keys() =~= Seq::<RomCacheKeyView>::empty());
        assert(s.inflight() =~= Seq::<RomCacheKeyView>::empty());
        s
    }

    /// The invariant holds of every scheduler.
    pub fn check_invariant(&self)
        ensures
            self.invariant_holds(),
    {
        proof {
            use_type_invariant(self);
        }
    }

    fn queued_has(&self, key: &RomCacheKey) -> (b: bool)
        ensures
            b == self.queue_keys().contains(key@),
    {
        let mut i: usize = 0;
        while i < self.queue.len()
            invariant
                i <= self.queue@.len(),
                forall|j: int| 0 <= j < i ==> self.queue@[j].0@ != key@,
            decreases self.queue@.len() - i,
        {
            if self.queue[i].0.same(key) {
                assert(self.queue_keys()[i as int] == key@);
                return true;
            }
            i += 1;
        }
        proof {
            if self.queue_keys().contains(key@) {
                let j = choose|j: int| 0 <= j < self.queue_keys().len() && self.queue_keys()[j]
                    == key@;
                assert(self.queue@[j].0@ == key@);
            }
        }
        false
    }

    fn inflight_index(&self, key: &RomCacheKey) -> (r: Option<usize>)
        ensures
            match r {
                Some(i) => i < self.inflight().len() && self.inflight()[i as int] == key@,
                None => !self.inflight().contains(key@),
            },
    {
        let mut i: usize = 0;
        while i < self.inflight.len()
            invariant
                i <= self.inflight@.len(),
                forall|j: int| 0 <= j < i ==> self.inflight@[j]@ != key@,
            decreases self.inflight@.len() - i,
        {
            if self.inflight[i].same(key) {
                return Some(i);
            }
            i += 1;
        }
        proof {
            if self.inflight().contains(key@) {
                let j = choose|j: int| 0 <= j < self.inflight().len() && self.inflight()[j]
                    == key@;
                assert(self.inflight@[j]@ == key@);
            }
        }
        None
    }

    /// Whether `key` waits in the queue.
    pub fn is_queued(&self, key: &RomCacheKey) -> (b: bool)
        ensures
            b == self.queue_keys().contains(key@),
    {
        self.queued_has(key)
    }

    /// Whether a prefetch of `key` is running.
    pub fn is_inflight(&self, key: &RomCacheKey) -> (b: bool)
        ensures
            b == self.inflight().contains(key@),
    {
        self.inflight_index(key).is_some()
    }

    /// Number of running prefetches.
    pub fn inflight_len(&self) -> (n: usize)
        ensures
            n == self.inflight().len(),
    {
        self.inflight.len()
    }

    /// Number of queued prefetches.
    pub fn queued_len(&self) -> (n: usize)
        ensures
            n == self.queue().len(),
    {
        self.queue.len()
    }

    /// Queue a prefetch candidate unless its list is already cached and valid, or the key is
    /// already queued or running.
    pub fn enqueue(&mut self, key: RomCacheKey, req: GetRoms, expected: u64, cached_valid: bool)
        ensures
            if cached_valid || old(self).queue_keys().contains(key@) || old(self).inflight().contains(
                key@,
            ) {
                final(self).queue() == old(self).queue()
            } else {
                final(self).queue() == old(self).queue().push((key, req, expected))
            },
            final(self).inflight() == old(self).inflight(),
            final(self).invariant_holds(),
    {
        proof {
            use_type_invariant(&*self);
        }
        if cached_valid || self.queued_has(&key) || self.inflight_index(&key).is_some() {
            return ;
        }
        let ghost old_keys = self.queue_keys();
        let mut q = Vec::new();
        std::mem::swap(&mut q, &mut self.queue);
        q.push((key, req, expected));
        proof {
            let nk = q@.map_values(|e: (RomCacheKey, GetRoms, u64)| e.0@);
            assert(nk =~= old_keys.push(key@));
            assert forall|k: RomCacheKeyView| #[trigger] nk.contains(k) implies !self.inflight().contains(
                k,
            ) by {
                let j = choose|j: int| 0 <= j < nk.len() && nk[j] == k;
                if j < old_keys.len() {
                    assert(old_keys[j] == k);
                    assert(old_keys.contains(k));
                } else {
                    assert(k == key@);
                }
            }
        }
        self.queue = q;
    }

    /// Start the most recently queued prefetch when fewer than `PREFETCH_MAX_INFLIGHT` run:
    /// it leaves the queue and is returned; its key is now running.
    pub fn start_next(&mut self) -> (r: Option<(RomCacheKey, GetRoms, u64)>)
        ensures
            if old(self).inflight().len() < PREFETCH_MAX_INFLIGHT && old(self).queue().len() > 0 {
                &&& r == Some(old(self).queue().last())
                &&& final(self).queue() == old(self).queue().drop_last()
                &&& final(self).inflight() == old(self).inflight().push(old(self).queue().last().0@)
            } else {
                &&& r is None
                &&& final(self).queue() == old(self).queue()
                &&& final(self).inflight() == old(self).inflight()
            },
            final(self).invariant_holds(),
    {
        proof {
            use_type_invariant(&*self);
        }
        if self.inflight.len() >= PREFETCH_MAX_INFLIGHT || self.queue.len() == 0 {
            return None;
        }
        let ghost old_keys = self.queue_keys();
        let ghost old_inflight = self.inflight();
        let mut q = Vec::new();
        std::mem::swap(&mut q, &mut self.queue);
        let item = q.pop().unwrap();
        let mut f = Vec::new();
        std::mem::swap(&mut f, &mut self.inflight);
        f.push(item.0.duplicate());
        proof {
            let nq = q@.map_values(|e: (RomCacheKey, GetRoms, u64)| e.0@);
            let nf = f@.map_values(|k: RomCacheKey| k@);
            assert(nq =~= old_keys.drop_last());
            assert(nf =~= old_inflight.push(item.0@));
            assert(old_keys.last() == item.0@);
            assert(old_keys.contains(item.0@));
            assert forall|i: int, j: int| 0 <= i < j < nf.len() implies nf[i] != nf[j] by {
                if j == nf.len() - 1 {
                    assert(nf[i] == old_inflight[i]);
                }
            }
            assert forall|k: RomCacheKeyView| #[trigger] nq.contains(k) implies !nf.contains(k) by {
                let j = choose|j: int| 0 <= j < nq.len() && nq[j] == k;
                assert(old_keys[j] == k);
                assert(old_keys.contains(k));
                if nf.contains(k) {
                    let m = choose|m: int| 0 <= m < nf.len() && nf[m] == k;
                    if m < old_inflight.len() {
                        assert(old_inflight[m] == k);
                        assert(old_inflight.contains(k));
                    } else {
                        assert(k == item.0@);
                        assert(old_keys[old_keys.len() - 1] == k);
                    }
                }
            }
        }
        self.queue = q;
        self.inflight = f;
        Some(item)
    }

    /// A prefetch of `key` finished: it no longer runs.
    pub fn finish(&mut self, key: &RomCacheKey)
        ensures
            final(self).queue() == old(self).queue(),
            !final(self).inflight().contains(key@),
            forall|k: RomCacheKeyView|
                k != key@ ==> (final(self).inflight().contains(k) <==> old(
                    self,
                ).inflight().contains(k)),
            final(self).invariant_holds(),
    {
        proof {
            use_type_invariant(&*self);
        }
        match self.inflight_index(key) {
            None => {},
            Some(i) => {
                let ghost old_inflight = self.inflight();
                let mut f = Vec::new();
                std::mem::swap(&mut f, &mut self.inflight);
                f.remove(i);
                proof {
                    let nf = f@.map_values(|k: RomCacheKey| k@);
                    assert(nf =~= old_inflight.remove(i as int));
                    assert forall|k: RomCacheKeyView| k != key@ implies (nf.contains(k)
                        <==> old_inflight.contains(k)) by {
                        if old_inflight.contains(k) {
                            let m = choose|m: int| 0 <= m < old_inflight.len() && old_inflight[m]
                                == k;
                            assert(m != i);
                            if m < i {
                                assert(nf[m] == k);
                            } else {
                                assert(nf[m - 1] == k);
                            }
                        }
                        if nf.contains(k) {
                            let m = choose|m: int| 0 <= m < nf.len() && nf[m] == k;
                            if m < i {
                                assert(old_inflight[m] == k);
                            } else {
                                assert(old_inflight[m + 1] == k);
                            }
                        }
                    }
                    assert(!nf.contains(key@)) by {
                        if nf.contains(key@) {
                            let m = choose|m: int| 0 <= m < nf.len() && nf[m] == key@;
                            if m < i {
                                assert(old_inflight[m] == key@);
                            } else {
                                assert(old_inflight[m + 1] == key@);
                            }
                        }
                    }
                    assert forall|a: int, b: int| 0 <= a < b < nf.len() implies nf[a] != nf[b] by {
                        let a2 = if a < i {
                            a
                        } else {
                            a + 1
                        };
                        let b2 = if b < i {
                            b
                        } else {
                            b + 1
                        };
                        assert(nf[a] == old_inflight[a2]);
                        assert(nf[b] == old_inflight[b2]);
                    }
                }
                self.inflight = f;
            },
        }
    }
}

} // verus!
