//! Picker for the extras of one game: related ROMs, update and DLC files, the cover and the
//! manual. Each row can be checked; the checked rows are what a confirmed download fetches.
//!
//! Resolving the rows into download targets, and drawing, belong to the front end.

use vstd::prelude::*;
use std::time::Instant;
use crate::game_detail::{GameDetailScreen, LONG_MESSAGE_NANOS, SHORT_MESSAGE_NANOS};
use crate::splash::{elapsed_nanos, instant_now};
use crate::text::{concat, decimal, is_blank, string_of, trim_spec, u64_to_decimal};
use crate::types::Rom;

verus! {

/// Key help shown under the rows when there is no message.
pub const EXTRAS_HELP_TEXT: &'static str = "↑/↓: Navigate | Space: Toggle | a: Toggle all | Enter: Download selected | Esc: Back";

/// Reminder in the picker's footer.
pub const EXTRAS_FOOTER_TEXT: &'static str = "At least one item must be checked to start download.";

/// Which kinds of extras start checked.
#[derive(Debug, Clone, Copy)]
pub struct ExtrasDefaults {
    pub include_related_roms: bool,
    pub include_cover: bool,
    pub include_manual: bool,
}

impl Default for ExtrasDefaults {
    /// Everything checked.
    fn default() -> (d: Self)
        ensures
            d.include_related_roms,
            d.include_cover,
            d.include_manual,
    {
        ExtrasDefaults { include_related_roms: true, include_cover: true, include_manual: true }
    }
}

/// Kind of a file attached to a ROM.
#[derive(Debug, Clone, Copy, PartialEq, Eq, Structural)]
pub enum RomFileCategory {
    Update,
    Dlc,
    Other,
}

/// A file attached to a ROM (an update or a DLC, for instance).
#[derive(Debug, Clone)]
pub struct RomFile {
    pub id: u64,
    pub file_name: String,
    pub category: Option<RomFileCategory>,
}

/// What to download when this row is checked and confirmed.
#[derive(Debug, Clone)]
pub enum ExtrasTargetSeed {
    RelatedRom(Box<Rom>),
    InternalRomFile(RomFile),
    Cover,
    Manual,
}

/// One row of the picker.
#[derive(Debug, Clone)]
pub struct ExtrasPickerItem {
    pub label: String,
    pub sublabel: String,
    pub checked: bool,
    pub seed: ExtrasTargetSeed,
}

/// Whether an optional URL is present and not blank.
pub open spec fn url_given(u: Option<String>) -> bool {
    match u {
        Some(s) => trim_spec(s@).len() > 0,
        None => false,
    }
}

/// Rows of the picker for the game of `d`: its related ROMs, `n_files` attached files, and the
/// cover and the manual where their URLs are given.
pub open spec fn extras_row_count(d: GameDetailScreen, n_files: nat, url_manual: Option<String>) -> int {
    d.other_files@.len() + n_files + (if url_given(d.rom.url_cover) {
        1int
    } else {
        0int
    }) + (if url_given(url_manual) {
        1int
    } else {
        0int
    })
}

pub open spec fn related_sublabel(id: u64) -> Seq<char> {
    "Related ROM (id "@ + decimal(id as nat) + ")"@
}

pub open spec fn category_tag(c: Option<RomFileCategory>) -> Seq<char> {
    match c {
        Some(RomFileCategory::Update) => "Update"@,
        Some(RomFileCategory::Dlc) => "DLC"@,
        _ => "ROM file"@,
    }
}

pub open spec fn file_sublabel(f: RomFile) -> Seq<char> {
    category_tag(f.category) + " (file id "@ + decimal(f.id as nat) + ")"@
}

/// The row for a related ROM `r`.
pub open spec fn related_item(it: ExtrasPickerItem, r: Rom, d: ExtrasDefaults) -> bool {
    &&& it.label@ == r.fs_name@
    &&& it.sublabel@ == related_sublabel(r.id)
    &&& it.checked == d.include_related_roms
    &&& it.seed == ExtrasTargetSeed::RelatedRom(Box::new(r))
}

/// The row for an attached file `f`.
pub open spec fn file_item(it: ExtrasPickerItem, f: RomFile, d: ExtrasDefaults) -> bool {
    &&& it.label@ == f.file_name@
    &&& it.sublabel@ == file_sublabel(f)
    &&& it.checked == d.include_related_roms
    &&& it.seed == ExtrasTargetSeed::InternalRomFile(f)
}

/// The cover row.
pub open spec fn cover_item(it: ExtrasPickerItem, d: ExtrasDefaults) -> bool {
    &&& it.label@ == "Cover image"@
    &&& it.sublabel@ == "From url_cover"@
    &&& it.checked == d.include_cover
    &&& it.seed is Cover
}

/// The manual row.
pub open spec fn manual_item(it: ExtrasPickerItem, d: ExtrasDefaults) -> bool {
    &&& it.label@ == "Manual"@
    &&& it.sublabel@ == "From url_manual"@
    &&& it.checked == d.include_manual
    &&& it.seed is Manual
}

/// Number of checked rows.
pub open spec fn checked_count(s: Seq<ExtrasPickerItem>) -> nat
    decreases s.len(),
{
    if s.len() == 0 {
        0
    } else {
        checked_count(s.drop_last()) + if s.last().checked {
            1nat
        } else {
            0nat
        }
    }
}

/// Whether some row is unchecked.
pub open spec fn any_unchecked(s: Seq<ExtrasPickerItem>) -> bool {
    exists|i: int| 0 <= i < s.len() && !(#[trigger] s[i]).checked
}

/// `it` with its checked state set to `b`.
pub open spec fn with_checked(it: ExtrasPickerItem, b: bool) -> ExtrasPickerItem {
    ExtrasPickerItem { checked: b, ..it }
}

/// The rows with row `i` flipped; unchanged when `i` is past the last row.
pub open spec fn toggled_at(s: Seq<ExtrasPickerItem>, i: int) -> Seq<ExtrasPickerItem> {
    if 0 <= i < s.len() {
        s.update(i, with_checked(s[i], !s[i].checked))
    } else {
        s
    }
}

/// The rows, each with its checked state set to `b`.
pub open spec fn all_set(s: Seq<ExtrasPickerItem>, b: bool) -> Seq<ExtrasPickerItem> {
    s.map_values(|it: ExtrasPickerItem| with_checked(it, b))
}

/// What "toggle all" makes of the rows.
pub open spec fn toggled_all(s: Seq<ExtrasPickerItem>) -> Seq<ExtrasPickerItem> {
    all_set(s, any_unchecked(s))
}

/// Cursor after moving up: wraps from the first row to the last.
pub open spec fn up_index(sel: usize, len: nat) -> int {
    if len == 0 {
        sel as int
    } else if sel == 0 {
        len - 1
    } else {
        sel - 1
    }
}

/// Cursor after moving down: wraps from the last row to the first.
pub open spec fn down_index(sel: usize, len: nat) -> int {
    if len == 0 {
        sel as int
    } else {
        (sel + 1) % (len as int)
    }
}

/// Check mark of a row.
pub fn check_mark(checked: bool) -> (m: &'static str)
    ensures
        m@ == if checked {
            "[x]"@
        } else {
            "[ ]"@
        },
{
    if checked {
        "[x]"
    } else {
        "[ ]"
    }
}

fn url_present(u: &Option<String>) -> (b: bool)
    ensures
        b == url_given(*u),
{
    match u {
        Some(s) => !is_blank(s.as_str()),
        None => false,
    }
}

fn related_row(r: Rom, d: &ExtrasDefaults) -> (it: ExtrasPickerItem)
    ensures
        related_item(it, r, *d),
{
    let id = u64_to_decimal(r.id);
    let a = concat("Related ROM (id ", id.as_str());
    let sublabel = concat(a.as_str(), ")");
    let label = r.fs_name.clone();
    ExtrasPickerItem {
        label,
        sublabel,
        checked: d.include_related_roms,
        seed: ExtrasTargetSeed::RelatedRom(Box::new(r)),
    }
}

fn file_row(f: RomFile, d: &ExtrasDefaults) -> (it: ExtrasPickerItem)
    ensures
        file_item(it, f, *d),
{
    let tag = match f.category {
        Some(RomFileCategory::Update) => "Update",
        Some(RomFileCategory::Dlc) => "DLC",
        _ => "ROM file",
    };
    let id = u64_to_decimal(f.id);
    let a = concat(tag, " (file id ");
    let b = concat(a.as_str(), id.as_str());
    let sublabel = concat(b.as_str(), ")");
    let label = f.file_name.clone();
    ExtrasPickerItem {
        label,
        sublabel,
        checked: d.include_related_roms,
        seed: ExtrasTargetSeed::InternalRomFile(f),
    }
}

/// Select extras, then confirm to queue one download job for all of them.
pub struct ExtrasPickerScreen {
    pub rom: Rom,
    pub items: Vec<ExtrasPickerItem>,
    pub selected_index: usize,
    pub previous: Box<GameDetailScreen>,
    pub message: Option<String>,
    /// When the message was shown, and for how long (nanoseconds) it stays.
    pub message_set_at: Option<Instant>,
    pub message_ttl_nanos: u128,
}

impl ExtrasPickerScreen {
    /// The picker for the game of `previous`: one row per related ROM, then one per attached
    /// update or DLC file, then the cover and the manual where their URLs are given.
    pub fn new(
        previous: Box<GameDetailScreen>,
        defaults: &ExtrasDefaults,
        update_dlc_files: Vec<RomFile>,
        url_manual: &Option<String>,
    ) -> (s: Self)
        ensures
            s.rom == previous.rom,
            s.previous == previous,
            s.selected_index == 0,
            s.message is None,
            s.message_set_at is None,
            s.items@.len() == extras_row_count(*previous, update_dlc_files@.len(), *url_manual),
            forall|i: int|
                0 <= i < previous.other_files@.len() ==> related_item(
                    s.items@[i],
                    #[trigger] previous.other_files@[i],
                    *defaults,
                ),
            forall|j: int|
                0 <= j < update_dlc_files@.len() ==> file_item(
                    s.items@[previous.other_files@.len() + j],
                    #[trigger] update_dlc_files@[j],
                    *defaults,
                ),
            url_given(previous.rom.url_cover) ==> cover_item(
                s.items@[(previous.other_files@.len() + update_dlc_files@.len()) as int],
                *defaults,
            ),
            url_given(*url_manual) ==> manual_item(s.items@[s.items@.len() - 1], *defaults),
    {
        let rom = previous.rom.duplicate();
        let mut items: Vec<ExtrasPickerItem> = Vec::new();
        let n = previous.other_files.len();
        let mut i: usize = 0;
        while i < n
            invariant
                i <= n,
                n == previous.other_files@.len(),
                items@.len() == i,
                forall|k: int|
                    0 <= k < i ==> related_item(
                        items@[k],
                        #[trigger] previous.other_files@[k],
                        *defaults,
                    ),
            decreases n - i,
        {
            let other = previous.other_files[i].duplicate();
            items.push(related_row(other, defaults));
            i += 1;
        }
        let ghost files = update_dlc_files@;
        let mut rest = update_dlc_files;
        let m = rest.len();
        let mut j: usize = 0;
        while j < m
            invariant
                j <= m,
                m == files.len(),
                rest@ == files.subrange(j as int, m as int),
                items@.len() == n + j,
                n == previous.other_files@.len(),
                forall|k: int|
                    0 <= k < n ==> related_item(
                        items@[k],
                        #[trigger] previous.other_files@[k],
                        *defaults,
                    ),
                forall|k: int| 0 <= k < j ==> file_item(items@[n + k], #[trigger] files[k], *defaults),
            decreases m - j,
        {
            let f = rest.remove(0);
            assert(rest@ =~= files.subrange(j + 1, m as int));
            items.push(file_row(f, defaults));
            j += 1;
        }
        if url_present(&rom.url_cover) {
            items.push(
                ExtrasPickerItem {
                    label: string_of("Cover image"),
                    sublabel: string_of("From url_cover"),
                    checked: defaults.include_cover,
                    seed: ExtrasTargetSeed::Cover,
                },
            );
        }
        if url_present(url_manual) {
            items.push(
                ExtrasPickerItem {
                    label: string_of("Manual"),
                    sublabel: string_of("From url_manual"),
                    checked: defaults.include_manual,
                    seed: ExtrasTargetSeed::Manual,
                },
            );
        }
        ExtrasPickerScreen {
            rom,
            items,
            selected_index: 0,
            previous,
            message: None,
            message_set_at: None,
            message_ttl_nanos: 0,
        }
    }

    /// Title bar text: `Extras — <game name>`.
    pub fn title(&self) -> (t: String)
        ensures
            t@ == "Extras — "@ + self.rom.name@,
    {
        concat("Extras — ", self.rom.name.as_str())
    }

    /// The line under the rows: the message if one is shown, otherwise the key help.
    pub fn hint_line(&self) -> (t: String)
        ensures
            t@ == match self.message {
                Some(m) => m@,
                None => EXTRAS_HELP_TEXT@,
            },
    {
        match &self.message {
            Some(m) => string_of(m.as_str()),
            None => string_of(EXTRAS_HELP_TEXT),
        }
    }

    /// Number of rows.
    pub fn item_count(&self) -> (n: usize)
        ensures
            n == self.items@.len(),
    {
        self.items.len()
    }

    /// Number of checked rows.
    pub fn selected_count(&self) -> (n: usize)
        ensures
            n == checked_count(self.items@),
    {
        let mut c: usize = 0;
        let mut i: usize = 0;
        while i < self.items.len()
            invariant
                i <= self.items@.len(),
                c <= i,
                c == checked_count(self.items@.take(i as int)),
            decreases self.items@.len() - i,
        {
            assert(self.items@.take(i + 1).drop_last() =~= self.items@.take(i as int));
            if self.items[i].checked {
                c += 1;
            }
            i += 1;
        }
        assert(self.items@.take(self.items@.len() as int) =~= self.items@);
        c
    }

    /// Move the cursor one row up, from the first row to the last.
    pub fn move_up(&mut self)
        ensures
            final(self).selected_index == up_index(old(self).selected_index, old(self).items@.len()),
            final(self).items == old(self).items,
            final(self).rom == old(self).rom,
            final(self).previous == old(self).previous,
            final(self).message == old(self).message,
            final(self).message_set_at == old(self).message_set_at,
            final(self).message_ttl_nanos == old(self).message_ttl_nanos,
    {
        if self.items.len() == 0 {
            return;
        }
        if self.selected_index == 0 {
            self.selected_index = self.items.len() - 1;
        } else {
            self.selected_index = self.selected_index - 1;
        }
    }

    /// Move the cursor one row down, from the last row to the first.
    pub fn move_down(&mut self)
        requires
            old(self).selected_index < usize::MAX,
        ensures
            final(self).selected_index == down_index(
                old(self).selected_index,
                old(self).items@.len(),
            ),
            final(self).items == old(self).items,
            final(self).rom == old(self).rom,
            final(self).previous == old(self).previous,
            final(self).message == old(self).message,
            final(self).message_set_at == old(self).message_set_at,
            final(self).message_ttl_nanos == old(self).message_ttl_nanos,
    {
        if self.items.len() == 0 {
            return;
        }
        self.selected_index = (self.selected_index + 1) % self.items.len();
    }

    /// Flip the checked state of the row under the cursor (nothing when the cursor is past the
    /// last row).
    pub fn toggle_current(&mut self)
        ensures
            final(self).items@ == toggled_at(old(self).items@, old(self).selected_index as int),
            final(self).selected_index == old(self).selected_index,
            final(self).rom == old(self).rom,
            final(self).previous == old(self).previous,
            final(self).message == old(self).message,
            final(self).message_set_at == old(self).message_set_at,
            final(self).message_ttl_nanos == old(self).message_ttl_nanos,
    {
        let i = self.selected_index;
        if i < self.items.len() {
            let mut it = self.items.remove(i);
            it.checked = !it.checked;
            self.items.insert(i, it);
            assert(self.items@ =~= toggled_at(old(self).items@, i as int));
        }
    }

    /// Check every row if some row is unchecked; otherwise uncheck every row.
    pub fn toggle_all(&mut self)
        ensures
            final(self).items@ == toggled_all(old(self).items@),
            final(self).selected_index == old(self).selected_index,
            final(self).rom == old(self).rom,
            final(self).previous == old(self).previous,
            final(self).message == old(self).message,
            final(self).message_set_at == old(self).message_set_at,
            final(self).message_ttl_nanos == old(self).message_ttl_nanos,
    {
        let ghost orig = self.items@;
        let mut any = false;
        let mut i: usize = 0;
        while i < self.items.len()
            invariant
                i <= self.items@.len(),
                self.items@ == orig,
                any == exists|k: int| 0 <= k < i && !(#[trigger] orig[k]).checked,
            decreases self.items@.len() - i,
        {
            if !self.items[i].checked {
                any = true;
            }
            i += 1;
        }
        let mut rest: Vec<ExtrasPickerItem> = Vec::new();
        std::mem::swap(&mut rest, &mut self.items);
        let n = rest.len();
        let mut out: Vec<ExtrasPickerItem> = Vec::new();
        let mut j: usize = 0;
        while j < n
            invariant
                j <= n,
                n == orig.len(),
                rest@ == orig.subrange(j as int, n as int),
                out@ == all_set(orig.take(j as int), any),
            decreases n - j,
        {
            let mut it = rest.remove(0);
            assert(rest@ =~= orig.subrange(j + 1, n as int));
            it.checked = any;
            out.push(it);
            assert(all_set(orig.take(j as int), any).push(with_checked(orig[j as int], any))
                =~= all_set(orig.take(j + 1), any));
            j += 1;
        }
        assert(orig.take(n as int) =~= orig);
        self.items = out;
    }

    /// Show a message for `ttl_nanos` nanoseconds from now.
    pub fn show_message(&mut self, msg: String, ttl_nanos: u128)
        ensures
            final(self).message == Some(msg),
            final(self).message_set_at is Some,
            final(self).message_ttl_nanos == ttl_nanos,
            final(self).items == old(self).items,
            final(self).selected_index == old(self).selected_index,
            final(self).rom == old(self).rom,
            final(self).previous == old(self).previous,
    {
        self.message = Some(msg);
        self.message_set_at = Some(instant_now());
        self.message_ttl_nanos = ttl_nanos;
    }

    /// Clear the message once `elapsed` nanoseconds since it was shown reach its lifetime.
    pub fn expire_message(&mut self, elapsed: u128)
        ensures
            (old(self).message_set_at is Some && elapsed >= old(self).message_ttl_nanos) ==> {
                &&& final(self).message is None
                &&& final(self).message_set_at is None
            },
            !(old(self).message_set_at is Some && elapsed >= old(self).message_ttl_nanos) ==> {
                &&& final(self).message == old(self).message
                &&& final(self).message_set_at == old(self).message_set_at
            },
            final(self).message_ttl_nanos == old(self).message_ttl_nanos,
            final(self).items == old(self).items,
            final(self).selected_index == old(self).selected_index,
            final(self).rom == old(self).rom,
            final(self).previous == old(self).previous,
    {
        if self.message_set_at.is_some() && elapsed >= self.message_ttl_nanos {
            self.message = None;
            self.message_set_at = None;
        }
    }

    /// Clear the message if its lifetime has passed on the clock. Either the message stays as
    /// it was or it is gone; which one depends on the time, except that a message without a
    /// timer always stays and one with a zero lifetime is always gone (the clock never reads
    /// earlier than when the message was shown).
    pub fn tick_message(&mut self)
        ensures
            (final(self).message == old(self).message && final(self).message_set_at
                == old(self).message_set_at) || (final(self).message is None
                && final(self).message_set_at is None),
            old(self).message_set_at is None ==> final(self).message == old(self).message
                && final(self).message_set_at is None,
            old(self).message_set_at is Some && old(self).message_ttl_nanos == 0
                ==> final(self).message is None && final(self).message_set_at is None,
            final(self).message_ttl_nanos == old(self).message_ttl_nanos,
            final(self).items == old(self).items,
            final(self).selected_index == old(self).selected_index,
            final(self).rom == old(self).rom,
            final(self).previous == old(self).previous,
    {
        let elapsed = match &self.message_set_at {
            Some(t) => elapsed_nanos(t),
            None => 0,
        };
        self.expire_message(elapsed);
    }
}

impl GameDetailScreen {
    /// The extras key: whether the picker has a row to offer (then nothing changes and the
    /// front end opens it); otherwise the message says there are no extras.
    pub fn request_extras(&mut self, update_dlc_files: &Vec<RomFile>, url_manual: &Option<String>) -> (open: bool)
        ensures
            open == (old(self).other_files@.len() > 0 || update_dlc_files@.len() > 0
                || url_given(old(self).rom.url_cover) || url_given(*url_manual)),
            open ==> *final(self) == *old(self),
            !open ==> (final(self).message matches Some(m) && m@
                == "No extras available for this ROM"@),
            !open ==> final(self).message_set_at is Some,
            !open ==> *final(self) == (GameDetailScreen {
                message: final(self).message,
                message_set_at: final(self).message_set_at,
                message_ttl_nanos: SHORT_MESSAGE_NANOS,
                ..*old(self)
            }),
    {
        if self.has_any_extras(update_dlc_files, url_manual) {
            true
        } else {
            self.set_timed_message(string_of("No extras available for this ROM"), SHORT_MESSAGE_NANOS);
            false
        }
    }

    /// After the download started: when the game has update or DLC files (`has_update_or_dlc`,
    /// which the front end learns with the ROM's file list), the message points to the extras
    /// key; otherwise nothing changes.
    pub fn note_extras_after_download(&mut self, has_update_or_dlc: bool)
        ensures
            has_update_or_dlc ==> (final(self).message matches Some(m) && m@
                == "Updates/DLC available. Press e to download extras."@),
            has_update_or_dlc ==> final(self).message_set_at is Some,
            has_update_or_dlc ==> *final(self) == (GameDetailScreen {
                message: final(self).message,
                message_set_at: final(self).message_set_at,
                message_ttl_nanos: LONG_MESSAGE_NANOS,
                ..*old(self)
            }),
            !has_update_or_dlc ==> *final(self) == *old(self),
    {
        if has_update_or_dlc {
            self.set_timed_message(
                string_of("Updates/DLC available. Press e to download extras."),
                LONG_MESSAGE_NANOS,
            );
        }
    }

    /// Whether the extras picker would offer at least one row: a related ROM, an attached
    /// file, a cover or a manual.
    pub fn has_any_extras(&self, update_dlc_files: &Vec<RomFile>, url_manual: &Option<String>) -> (b: bool)
        ensures
            b == (self.other_files@.len() > 0 || update_dlc_files@.len() > 0 || url_given(
                self.rom.url_cover,
            ) || url_given(*url_manual)),
    {
        self.other_files.len() > 0 || update_dlc_files.len() > 0 || url_present(&self.rom.url_cover)
            || url_present(url_manual)
    }
}

/// The detail view offers extras exactly when the picker built for it has a row.
pub proof fn lemma_has_extras_iff_rows(d: GameDetailScreen, n_files: nat, url_manual: Option<String>)
    ensures
        (d.other_files@.len() > 0 || n_files > 0 || url_given(d.rom.url_cover) || url_given(
            url_manual,
        )) <==> extras_row_count(d, n_files, url_manual) > 0,
{
}

/// Moving down and then up puts the cursor back on the row it was on.
pub proof fn lemma_down_then_up(sel: usize, len: nat)
    requires
        sel < len,
        len <= usize::MAX,
    ensures
        up_index(down_index(sel, len) as usize, len) == sel,
{
    if sel + 1 == len {
        assert((sel + 1) % (len as int) == 0) by {
            vstd::arithmetic::div_mod::lemma_mod_self_0(len as int);
        }
    } else {
        assert((sel + 1) % (len as int) == sel + 1) by {
            vstd::arithmetic::div_mod::lemma_small_mod((sel + 1) as nat, len);
        }
    }
}

/// Moving up and then down puts the cursor back on the row it was on.
pub proof fn lemma_up_then_down(sel: usize, len: nat)
    requires
        sel < len,
        len <= usize::MAX,
    ensures
        up_index(sel, len) < usize::MAX,
        down_index(up_index(sel, len) as usize, len) == sel,
{
    let u = up_index(sel, len);
    if sel == 0 {
        assert((u + 1) % (len as int) == 0) by {
            vstd::arithmetic::div_mod::lemma_mod_self_0(len as int);
        }
    } else {
        assert((u + 1) % (len as int) == sel) by {
            vstd::arithmetic::div_mod::lemma_small_mod(sel as nat, len);
        }
    }
}

/// Toggling the same row twice gives back the rows.
pub proof fn lemma_toggle_current_twice(s: Seq<ExtrasPickerItem>, i: int)
    ensures
        toggled_at(toggled_at(s, i), i) == s,
{
    if 0 <= i < s.len() {
        assert(toggled_at(toggled_at(s, i), i) =~= s);
    }
}

/// Number of checked rows once every row is set to `b`.
pub proof fn lemma_count_all_set(s: Seq<ExtrasPickerItem>, b: bool)
    ensures
        checked_count(all_set(s, b)) == if b {
            s.len()
        } else {
            0
        },
    decreases s.len(),
{
    if s.len() > 0 {
        assert(all_set(s, b).drop_last() =~= all_set(s.drop_last(), b));
        lemma_count_all_set(s.drop_last(), b);
    }
}

/// After "toggle all" either every row is checked (some row was unchecked before) or none
/// is (every row was checked).
pub proof fn lemma_toggle_all_count(s: Seq<ExtrasPickerItem>)
    ensures
        checked_count(toggled_all(s)) == if any_unchecked(s) {
            s.len()
        } else {
            0
        },
{
    lemma_count_all_set(s, any_unchecked(s));
}

/// "Toggle all" twice: when the rows were all checked or all unchecked it gives them back;
/// when they were mixed, every row ends unchecked.
pub proof fn lemma_toggle_all_twice(s: Seq<ExtrasPickerItem>)
    ensures
        ((forall|k: int| 0 <= k < s.len() ==> (#[trigger] s[k]).checked) || (forall|k: int|
            0 <= k < s.len() ==> !(#[trigger] s[k]).checked)) ==> toggled_all(toggled_all(s))
            == s,
        toggled_all(toggled_all(s)).len() == s.len(),
        (any_unchecked(s) && exists|k: int| 0 <= k < s.len() && (#[trigger] s[k]).checked)
            ==> forall|k: int|
            0 <= k < s.len() ==> !(#[trigger] toggled_all(toggled_all(s))[k]).checked,
{
    let t = toggled_all(s);
    let u = toggled_all(t);
    if s.len() > 0 {
        if any_unchecked(s) {
            assert(!any_unchecked(t));
        } else {
            assert(!t[0].checked);
            assert(any_unchecked(t));
        }
    }
    if forall|k: int| 0 <= k < s.len() ==> (#[trigger] s[k]).checked {
        assert(u =~= s);
    }
    if forall|k: int| 0 <= k < s.len() ==> !(#[trigger] s[k]).checked {
        if s.len() > 0 {
            assert(!s[0].checked);
        }
        assert(u =~= s);
    }
}

} // verus!
