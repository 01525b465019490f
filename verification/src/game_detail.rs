//! Game detail: one ROM with its related files, the cover's loading state, the download
//! progress shown for the ROM, what a key does, and the text of the metadata panel.
//!
//! The image decoding and drawing, the browser and the shared download list belong to the
//! front end; it hands this state a snapshot of the download list and the outcomes.

use vstd::prelude::*;
use crate::keys::KeyCode;
use crate::library_browse::LibraryBrowseScreen;
use crate::runtime::DownloadStatus;
use crate::search::SearchScreen;
use crate::text::{
    ascii_lower_seq, concat, decimal, seq_contains, str_contains, string_of, to_ascii_lowercase,
    trim, trim_spec, u64_to_decimal,
};
use crate::types::Rom;
use crate::path_picker::PathPicker;
use crate::splash::{elapsed_nanos, instant_now};
use std::time::Instant;

verus! {

/// The screen to go back to on Esc.
pub enum GameDetailPrevious {
    Library(LibraryBrowseScreen),
    Search(SearchScreen),
}

/// How the cover is drawn.
#[derive(Debug, Clone, Copy, PartialEq, Eq, Structural)]
pub enum CoverRenderMode {
    Auto,
    InlineImage,
    TextFallback,
}

/// Loading state of the cover image.
#[derive(Debug, Clone, PartialEq, Eq)]
pub enum CoverState {
    Idle,
    Loading,
    Ready,
    Failed(String),
}

/// Terminal graphics protocols for inline images.
#[derive(Debug, Clone, Copy, PartialEq, Eq, Structural)]
pub enum CoverProtocol {
    Halfblocks,
    Sixel,
    Kitty,
    Iterm2,
}

/// One download as the detail view sees it; `percent` is its progress, 0 to 100.
#[derive(Debug, Clone)]
pub struct DownloadJob {
    pub id: usize,
    pub rom_id: u64,
    pub name: String,
    pub platform: String,
    pub percent: u16,
    pub status: DownloadStatus,
}

/// Detailed view of a single ROM.
pub struct GameDetailScreen {
    pub rom: Rom,
    /// Other files of the same game (updates, DLC).
    pub other_files: Vec<Rom>,
    pub previous: GameDetailPrevious,
    pub show_technical: bool,
    pub message: Option<String>,
    /// A download was started from this view.
    pub has_started_download: bool,
    /// The user has seen the download's outcome.
    pub download_completion_acknowledged: bool,
    pub cover_render_mode: CoverRenderMode,
    pub cover_state: CoverState,
    pub cover_last_url: Option<String>,
    pub cover_protocol: Option<CoverProtocol>,
    /// When a timed message was shown, and for how long (nanoseconds) it stays.
    pub message_set_at: Option<Instant>,
    pub message_ttl_nanos: u128,
    /// The saves stored on the server for this ROM.
    pub saves_state: SaveListState,
    pub selected_save_index: usize,
    /// The file picker for uploading a save, while it is open.
    pub save_upload_picker: Option<PathPicker>,
}

/// A save stored on the server: what the detail view reads of it.
#[derive(Debug)]
pub struct SaveRow {
    pub id: u64,
    pub file_name: String,
}

/// Loading state of the save list.
pub enum SaveListState {
    Idle,
    Loading,
    Loaded(Vec<SaveRow>),
    Failed(String),
}

/// How long a short notice stays, in nanoseconds.
pub const SHORT_MESSAGE_NANOS: u128 = 3_000_000_000;

/// How long a longer notice stays, in nanoseconds.
pub const LONG_MESSAGE_NANOS: u128 = 5_000_000_000;

/// What the front end does after a key on the detail view.
pub enum GameDetailAction {
    Nothing,
    /// Start downloading the ROM.
    StartDownload,
    /// Open this URL in the browser, then report with `cover_open_finished`.
    OpenCover(String),
    /// Go back to the previous screen.
    Back,
    Quit,
    /// The extras picker was asked for: the front end checks with `request_extras`, which
    /// needs the ROM's attached files, and opens the picker when there is something to offer.
    Extras,
    /// The save upload picker is open: the front end hands the key to it.
    PickerKey,
    /// Open the save upload picker (the front end builds it, then `open_save_upload_picker`).
    UploadSave,
    /// Download this save (then `save_download_started`).
    DownloadSave(SaveRow),
}

/// A copy of an optional string.
fn copy_opt(s: &Option<String>) -> (r: Option<String>)
    ensures
        r is Some == s is Some,
        r is Some ==> r->0@ == s->0@,
{
    match s {
        Some(v) => Some(string_of(v.as_str())),
        None => None,
    }
}

/// The inline-image protocol that the terminal announces: a Kitty window id wins, then a
/// terminal program known for iTerm2 images, then a `TERM` that mentions sixel (any case).
pub fn detect_cover_protocol_from_env(
    term_program: Option<String>,
    term: Option<String>,
    kitty_window_id: Option<String>,
) -> (p: Option<CoverProtocol>)
    ensures
        p == (if kitty_window_id matches Some(k) && k@.len() > 0 {
            Some(CoverProtocol::Kitty)
        } else if term_program matches Some(tp) && iterm2_program(tp@) {
            Some(CoverProtocol::Iterm2)
        } else if term matches Some(t) && seq_contains(ascii_lower_seq(t@), "sixel"@) {
            Some(CoverProtocol::Sixel)
        } else {
            None
        }),
{
    if let Some(k) = &kitty_window_id {
        if !k.as_str().is_empty() {
            return Some(CoverProtocol::Kitty);
        }
    }
    if let Some(tp) = &term_program {
        let t = tp.as_str();
        if str_contains(t, "iTerm") || str_contains(t, "WezTerm") || str_contains(t, "mintty")
            || str_contains(t, "vscode") || str_contains(t, "Tabby") || str_contains(t, "Hyper")
            || str_contains(t, "rio") || str_contains(t, "WarpTerminal") {
            return Some(CoverProtocol::Iterm2);
        }
    }
    if let Some(v) = &term {
        let lower = to_ascii_lowercase(v.as_str());
        if str_contains(lower.as_str(), "sixel") {
            return Some(CoverProtocol::Sixel);
        }
    }
    None
}

/// Terminal programs that draw iTerm2 inline images.
pub open spec fn iterm2_program(tp: Seq<char>) -> bool {
    ||| seq_contains(tp, "iTerm"@)
    ||| seq_contains(tp, "WezTerm"@)
    ||| seq_contains(tp, "mintty"@)
    ||| seq_contains(tp, "vscode"@)
    ||| seq_contains(tp, "Tabby"@)
    ||| seq_contains(tp, "Hyper"@)
    ||| seq_contains(tp, "rio"@)
    ||| seq_contains(tp, "WarpTerminal"@)
}

/// The save selection after Up: one up, stopping at the first save.
pub open spec fn save_index_previous(i: usize) -> usize {
    if i > 0 {
        (i - 1) as usize
    } else {
        0
    }
}

/// The save selection after Down: one down, stopping at the last save; unchanged unless a
/// non-empty list is loaded.
pub open spec fn save_index_next(state: SaveListState, i: usize) -> usize {
    match state {
        SaveListState::Loaded(rows) => if rows@.len() == 0 {
            i
        } else if i + 1 < rows@.len() {
            (i + 1) as usize
        } else {
            (rows@.len() - 1) as usize
        },
        _ => i,
    }
}

impl GameDetailScreen {
    /// The view of `rom`: the cover loads when the ROM has a cover URL.
    pub fn new(
        rom: Rom,
        other_files: Vec<Rom>,
        previous: GameDetailPrevious,
        cover_protocol: Option<CoverProtocol>,
    ) -> (s: GameDetailScreen)
        ensures
            s.rom == rom,
            s.other_files == other_files,
            s.previous == previous,
            !s.show_technical,
            s.message is None,
            !s.has_started_download,
            !s.download_completion_acknowledged,
            s.cover_render_mode == CoverRenderMode::Auto,
            s.cover_state == (if rom.url_cover is Some {
                CoverState::Loading
            } else {
                CoverState::Idle
            }),
            s.cover_last_url is Some == rom.url_cover is Some,
            s.cover_last_url is Some ==> s.cover_last_url->0@ == rom.url_cover->0@,
            s.cover_protocol == cover_protocol,
            s.message_set_at is None,
            s.saves_state is Idle,
            s.selected_save_index == 0,
            s.save_upload_picker is None,
    {
        let cover_last_url = copy_opt(&rom.url_cover);
        let cover_state = if cover_last_url.is_none() {
            CoverState::Idle
        } else {
            CoverState::Loading
        };
        GameDetailScreen {
            rom,
            other_files,
            previous,
            show_technical: false,
            message: None,
            has_started_download: false,
            download_completion_acknowledged: false,
            cover_render_mode: CoverRenderMode::Auto,
            cover_state,
            cover_last_url,
            cover_protocol,
            message_set_at: None,
            message_ttl_nanos: 0,
            saves_state: SaveListState::Idle,
            selected_save_index: 0,
            save_upload_picker: None,
        }
    }

    pub fn toggle_technical(&mut self)
        ensures
            *final(self) == (GameDetailScreen {
                show_technical: !old(self).show_technical,
                ..*old(self)
            }),
    {
        self.show_technical = !self.show_technical;
    }

    /// Start opening the cover: the message clears; the cover URL to open comes back, or,
    /// without a (non-empty) cover URL, the message says so.
    pub fn open_cover_target(&mut self) -> (url: Option<String>)
        ensures
            (old(self).rom.url_cover matches Some(u) && u@.len() > 0) ==> {
                &&& url matches Some(v) && v@ == old(self).rom.url_cover->0@
                &&& *final(self) == (GameDetailScreen {
                    message: None,
                    message_set_at: None,
                    ..*old(self)
                })
            },
            !(old(self).rom.url_cover matches Some(u) && u@.len() > 0) ==> {
                &&& url is None
                &&& final(self).message matches Some(m) && m@ == "No cover URL"@
                &&& *final(self) == (GameDetailScreen {
                    message: final(self).message,
                    message_set_at: None,
                    ..*old(self)
                })
            },
    {
        self.message = None;
        self.message_set_at = None;
        match &self.rom.url_cover {
            Some(u) => {
                if !u.as_str().is_empty() {
                    return Some(string_of(u.as_str()));
                }
            },
            None => {},
        }
        self.message = Some(string_of("No cover URL"));
        None
    }

    /// The browser was asked to open the cover: the message tells how that went.
    pub fn cover_open_finished(&mut self, result: Result<(), String>)
        ensures
            match result {
                Ok(()) => final(self).message matches Some(m) && m@ == "Opened in browser"@,
                Err(e) => final(self).message matches Some(m) && m@ == "Failed: "@ + e@,
            },
            *final(self) == (GameDetailScreen {
                message: final(self).message,
                message_set_at: None,
                ..*old(self)
            }),
    {
        self.message_set_at = None;
        match result {
            Ok(()) => {
                self.message = Some(string_of("Opened in browser"));
            },
            Err(e) => {
                self.message = Some(concat("Failed: ", e.as_str()));
            },
        }
    }

    pub fn clear_message(&mut self)
        ensures
            *final(self) == (GameDetailScreen { message: None, message_set_at: None, ..*old(self) }),
    {
        self.message = None;
        self.message_set_at = None;
    }

    /// The cover has a URL to load from.
    pub fn should_request_cover_load(&self) -> (b: bool)
        ensures
            b == self.cover_last_url is Some,
    {
        self.cover_last_url.is_some()
    }

    /// Mark the cover as loading (when it has a URL).
    pub fn set_cover_loading(&mut self)
        ensures
            *final(self) == if old(self).cover_last_url is Some {
                GameDetailScreen { cover_state: CoverState::Loading, ..*old(self) }
            } else {
                *old(self)
            },
    {
        if self.should_request_cover_load() {
            self.cover_state = CoverState::Loading;
        }
    }

    /// The cover image was decoded and handed to the image widget.
    pub fn cover_ready(&mut self)
        ensures
            *final(self) == (GameDetailScreen { cover_state: CoverState::Ready, ..*old(self) }),
    {
        self.cover_state = CoverState::Ready;
    }

    /// Loading the cover failed with `message`.
    pub fn apply_cover_error(&mut self, message: String)
        ensures
            *final(self) == (GameDetailScreen {
                cover_state: CoverState::Failed(message),
                ..*old(self)
            }),
    {
        self.cover_state = CoverState::Failed(message);
    }

    /// Key help in the footer.
    pub fn footer_help_text(&self) -> (t: &'static str)
        ensures
            t@ == if self.show_technical {
                "Enter: Download | o: Open cover | m: Hide technical | Esc: Back"@
            } else {
                "Enter: Download | o: Open cover | m: More technical details | Esc: Back"@
            },
    {
        if self.show_technical {
            "Enter: Download | o: Open cover | m: Hide technical | Esc: Back"
        } else {
            "Enter: Download | o: Open cover | m: More technical details | Esc: Back"
        }
    }

    /// How the cover is drawn, as the cover panel says it.
    pub fn cover_pipeline_label(&self) -> (t: &'static str)
        ensures
            t@ == if self.cover_protocol is Some {
                "Advanced terminal protocol"@
            } else {
                "Halfblocks fallback mode"@
            },
    {
        if self.cover_protocol.is_some() {
            "Advanced terminal protocol"
        } else {
            "Halfblocks fallback mode"
        }
    }

    /// A job of this ROM whose state the footer shows: running, or finished and not yet
    /// acknowledged.
    pub open spec fn shows_job(&self, j: DownloadJob) -> bool {
        j.rom_id == self.rom.id && (j.status is Downloading || (
        !self.download_completion_acknowledged && (j.status is Done || j.status is Error)))
    }

    /// The most recent job that the footer shows (the last such in the list).
    pub fn active_download(&self, jobs: &[DownloadJob]) -> (r: Option<usize>)
        ensures
            match r {
                Some(i) => self.active_download_spec(jobs@) == Some(i as int),
                None => self.active_download_spec(jobs@) is None,
            },
            r is None ==> forall|i: int| 0 <= i < jobs@.len() ==> !self.shows_job(#[trigger] jobs@[i]),
            r matches Some(i) ==> {
                &&& i < jobs@.len()
                &&& self.shows_job(jobs@[i as int])
                &&& forall|k: int| i < k < jobs@.len() ==> !self.shows_job(#[trigger] jobs@[k])
            },
    {
        let mut i: usize = jobs.len();
        assert(jobs@.take(i as int) =~= jobs@);
        while i > 0
            invariant
                i <= jobs@.len(),
                forall|k: int| i <= k < jobs@.len() ==> !self.shows_job(#[trigger] jobs@[k]),
                self.active_download_spec(jobs@) == self.active_download_spec(jobs@.take(i as int)),
            decreases i,
        {
            let j = &jobs[i - 1];
            let shown = j.rom_id == self.rom.id && (matches!(j.status, DownloadStatus::Downloading)
                || (!self.download_completion_acknowledged && (matches!(
                j.status,
                DownloadStatus::Done
            ) || matches!(j.status, DownloadStatus::Error(_)))));
            proof {
                assert(jobs@.take(i as int).drop_last() =~= jobs@.take(i - 1));
            }
            if shown {
                return Some(i - 1);
            }
            i -= 1;
        }
        None
    }

    /// Some job of this ROM finished (done or failed).
    pub open spec fn has_finished_job(&self, jobs: Seq<DownloadJob>) -> bool {
        exists|i: int|
            0 <= i < jobs.len() && (#[trigger] jobs[i]).rom_id == self.rom.id && (jobs[i].status is Done
                || jobs[i].status is Error)
    }

    /// Some job of this ROM is still running.
    pub open spec fn has_running_job(&self, jobs: Seq<DownloadJob>) -> bool {
        exists|i: int|
            0 <= i < jobs.len() && (#[trigger] jobs[i]).rom_id == self.rom.id
                && jobs[i].status is Downloading
    }

    /// A key acknowledges a finished download once nothing of this ROM is still running.
    pub fn acknowledge_completion(&mut self, jobs: &[DownloadJob])
        ensures
            *final(self) == (GameDetailScreen {
                download_completion_acknowledged: old(self).download_completion_acknowledged || (
                old(self).has_finished_job(jobs@) && !old(self).has_running_job(jobs@)),
                ..*old(self)
            }),
    {
        if self.download_completion_acknowledged {
            return;
        }
        let mut finished = false;
        let mut running = false;
        let mut i: usize = 0;
        while i < jobs.len()
            invariant
                i <= jobs@.len(),
                finished == exists|k: int|
                    0 <= k < i && (#[trigger] jobs@[k]).rom_id == self.rom.id && (
                    jobs@[k].status is Done || jobs@[k].status is Error),
                running == exists|k: int|
                    0 <= k < i && (#[trigger] jobs@[k]).rom_id == self.rom.id
                        && jobs@[k].status is Downloading,
            decreases jobs@.len() - i,
        {
            let j = &jobs[i];
            if j.rom_id == self.rom.id {
                match j.status {
                    DownloadStatus::Done | DownloadStatus::Error(_) => {
                        finished = true;
                    },
                    DownloadStatus::Downloading => {
                        running = true;
                    },
                }
            }
            i += 1;
        }
        if finished && !running {
            self.download_completion_acknowledged = true;
        }
    }

    /// One key on the detail view, with the current download list. While the save upload
    /// picker is open, Esc closes it (and clears the message) and every other key goes to the
    /// picker. Otherwise any key first acknowledges a finished download; `e`, `E` or Shift+Enter
    /// (`shift` tells whether Shift was held) asks for the extras picker; Enter starts the
    /// download once per view; Up/`k` and Down/`j` move in the save list; `u` asks for the
    /// upload picker; `D` downloads the selected save (or says there is none); `o` opens the
    /// cover; `m` toggles the technical details; Esc goes back; `q` quits.
    pub fn handle_key(&mut self, code: KeyCode, shift: bool, jobs: &[DownloadJob]) -> (a:
        GameDetailAction)
        ensures
            ({
                let acked = GameDetailScreen {
                    download_completion_acknowledged: old(self).download_completion_acknowledged
                        || (old(self).has_finished_job(jobs@) && !old(self).has_running_job(
                        jobs@,
                    )),
                    ..*old(self)
                };
                if old(self).save_upload_picker is Some {
                    if code is Esc {
                        a is Nothing && *final(self) == (GameDetailScreen {
                            save_upload_picker: None,
                            message: None,
                            message_set_at: None,
                            ..*old(self)
                        })
                    } else {
                        a is PickerKey && *final(self) == *old(self)
                    }
                } else if code == KeyCode::Char('e') || code == KeyCode::Char('E') || (code is Enter
                    && shift) {
                    a is Extras && *final(self) == acked
                } else if code is Enter && !acked.has_started_download {
                    a is StartDownload && *final(self) == (GameDetailScreen {
                        has_started_download: true,
                        ..acked
                    })
                } else if code is Up || code == KeyCode::Char('k') {
                    a is Nothing && *final(self) == (GameDetailScreen {
                        selected_save_index: save_index_previous(acked.selected_save_index),
                        ..acked
                    })
                } else if code is Down || code == KeyCode::Char('j') {
                    a is Nothing && *final(self) == (GameDetailScreen {
                        selected_save_index: save_index_next(
                            acked.saves_state,
                            acked.selected_save_index,
                        ),
                        ..acked
                    })
                } else if code == KeyCode::Char('u') {
                    a is UploadSave && *final(self) == acked
                } else if code == KeyCode::Char('D') {
                    match acked.spec_selected_save() {
                        Some(row) => a matches GameDetailAction::DownloadSave(r) && r == row
                            && *final(self) == acked,
                        None => {
                            &&& a is Nothing
                            &&& final(self).message matches Some(m) && m@ == "No save selected"@
                            &&& final(self).message_set_at is Some
                            &&& *final(self) == (GameDetailScreen {
                                message: final(self).message,
                                message_set_at: final(self).message_set_at,
                                message_ttl_nanos: SHORT_MESSAGE_NANOS,
                                ..acked
                            })
                        },
                    }
                } else if code == KeyCode::Char('o') {
                    if acked.rom.url_cover matches Some(u) && u@.len() > 0 {
                        &&& a matches GameDetailAction::OpenCover(v) && v@ == acked.rom.url_cover->0@
                        &&& *final(self) == (GameDetailScreen {
                            message: None,
                            message_set_at: None,
                            ..acked
                        })
                    } else {
                        &&& a is Nothing
                        &&& final(self).message matches Some(m) && m@ == "No cover URL"@
                        &&& *final(self) == (GameDetailScreen {
                            message: final(self).message,
                            message_set_at: None,
                            ..acked
                        })
                    }
                } else if code == KeyCode::Char('m') {
                    a is Nothing && *final(self) == (GameDetailScreen {
                        show_technical: !acked.show_technical,
                        ..acked
                    })
                } else if code is Esc {
                    a is Back && *final(self) == (GameDetailScreen {
                        message: None,
                        message_set_at: None,
                        ..acked
                    })
                } else if code == KeyCode::Char('q') {
                    a is Quit && *final(self) == acked
                } else {
                    a is Nothing && *final(self) == acked
                }
            }),
    {
        if self.save_upload_picker.is_some() {
            if code == KeyCode::Esc {
                self.save_upload_picker = None;
                self.clear_message();
                return GameDetailAction::Nothing;
            }
            return GameDetailAction::PickerKey;
        }
        self.acknowledge_completion(jobs);
        if code == KeyCode::Char('e') || code == KeyCode::Char('E') || (code == KeyCode::Enter
            && shift) {
            GameDetailAction::Extras
        } else if code == KeyCode::Enter && !self.has_started_download {
            self.has_started_download = true;
            GameDetailAction::StartDownload
        } else if code == KeyCode::Up || code == KeyCode::Char('k') {
            self.save_selection_previous();
            GameDetailAction::Nothing
        } else if code == KeyCode::Down || code == KeyCode::Char('j') {
            self.save_selection_next();
            GameDetailAction::Nothing
        } else if code == KeyCode::Char('u') {
            GameDetailAction::UploadSave
        } else if code == KeyCode::Char('D') {
            match self.selected_save() {
                Some(row) => GameDetailAction::DownloadSave(row),
                None => {
                    self.set_timed_message(string_of("No save selected"), SHORT_MESSAGE_NANOS);
                    GameDetailAction::Nothing
                },
            }
        } else if code == KeyCode::Char('o') {
            match self.open_cover_target() {
                Some(u) => GameDetailAction::OpenCover(u),
                None => GameDetailAction::Nothing,
            }
        } else if code == KeyCode::Char('m') {
            self.toggle_technical();
            GameDetailAction::Nothing
        } else if code == KeyCode::Esc {
            self.clear_message();
            GameDetailAction::Back
        } else if code == KeyCode::Char('q') {
            GameDetailAction::Quit
        } else {
            GameDetailAction::Nothing
        }
    }

    /// The selected save, if the list is loaded and the selection is in it.
    pub open spec fn spec_selected_save(&self) -> Option<SaveRow> {
        match self.saves_state {
            SaveListState::Loaded(rows) => if self.selected_save_index < rows@.len() {
                Some(rows@[self.selected_save_index as int])
            } else {
                None
            },
            _ => None,
        }
    }

    /// A copy of the selected save, if the list is loaded and the selection is in it.
    pub fn selected_save(&self) -> (r: Option<SaveRow>)
        ensures
            r == self.spec_selected_save(),
    {
        match &self.saves_state {
            SaveListState::Loaded(rows) => if self.selected_save_index < rows.len() {
                let row = &rows[self.selected_save_index];
                Some(SaveRow { id: row.id, file_name: row.file_name.clone() })
            } else {
                None
            },
            _ => None,
        }
    }

    /// Move the save selection down, stopping at the last save (only with a loaded list).
    pub fn save_selection_next(&mut self)
        ensures
            *final(self) == (GameDetailScreen {
                selected_save_index: save_index_next(old(self).saves_state, old(self).selected_save_index),
                ..*old(self)
            }),
    {
        match &self.saves_state {
            SaveListState::Loaded(rows) => {
                let n = rows.len();
                if n > 0 {
                    self.selected_save_index = if self.selected_save_index < n - 1 {
                        self.selected_save_index + 1
                    } else {
                        n - 1
                    };
                }
            },
            _ => {},
        }
    }

    /// Move the save selection up, stopping at the first save.
    pub fn save_selection_previous(&mut self)
        ensures
            *final(self) == (GameDetailScreen {
                selected_save_index: save_index_previous(old(self).selected_save_index),
                ..*old(self)
            }),
    {
        if self.selected_save_index > 0 {
            self.selected_save_index = self.selected_save_index - 1;
        }
    }

    /// The save list is being fetched.
    pub fn set_saves_loading(&mut self)
        ensures
            *final(self) == (GameDetailScreen { saves_state: SaveListState::Loading, ..*old(self) }),
    {
        self.saves_state = SaveListState::Loading;
    }

    /// The save list arrived: the selection is kept, at most on the last save.
    pub fn apply_saves(&mut self, saves: Vec<SaveRow>)
        ensures
            final(self).selected_save_index == if old(self).selected_save_index + 1 < saves@.len() {
                old(self).selected_save_index as int
            } else if saves@.len() == 0 {
                0
            } else {
                saves@.len() - 1
            },
            *final(self) == (GameDetailScreen {
                saves_state: SaveListState::Loaded(saves),
                selected_save_index: final(self).selected_save_index,
                ..*old(self)
            }),
    {
        let n = saves.len();
        let last = if n == 0 {
            0
        } else {
            n - 1
        };
        if self.selected_save_index > last {
            self.selected_save_index = last;
        }
        self.saves_state = SaveListState::Loaded(saves);
    }

    /// Fetching the save list failed with `error`.
    pub fn apply_saves_error(&mut self, error: String)
        ensures
            *final(self) == (GameDetailScreen {
                saves_state: SaveListState::Failed(error),
                ..*old(self)
            }),
    {
        self.saves_state = SaveListState::Failed(error);
    }

    /// Open the save upload picker (built by the front end for its start directory).
    pub fn open_save_upload_picker(&mut self, picker: PathPicker)
        ensures
            final(self).message matches Some(m) && m@ == "Choose a save file to upload"@,
            *final(self) == (GameDetailScreen {
                save_upload_picker: Some(picker),
                message: final(self).message,
                message_set_at: None,
                ..*old(self)
            }),
    {
        self.save_upload_picker = Some(picker);
        self.message = Some(string_of("Choose a save file to upload"));
        self.message_set_at = None;
    }

    /// A save file was chosen in the picker: the picker closes and the upload runs.
    pub fn save_upload_started(&mut self)
        ensures
            final(self).message matches Some(m) && m@ == "Uploading save..."@,
            *final(self) == (GameDetailScreen {
                save_upload_picker: None,
                message: final(self).message,
                message_set_at: None,
                ..*old(self)
            }),
    {
        self.save_upload_picker = None;
        self.message = Some(string_of("Uploading save..."));
        self.message_set_at = None;
    }

    /// The selected save is being downloaded.
    pub fn save_download_started(&mut self)
        ensures
            final(self).message matches Some(m) && m@ == "Downloading save..."@,
            *final(self) == (GameDetailScreen {
                message: final(self).message,
                message_set_at: None,
                ..*old(self)
            }),
    {
        self.message = Some(string_of("Downloading save..."));
        self.message_set_at = None;
    }

    /// Show `msg` for `ttl_nanos` nanoseconds from now.
    pub fn set_timed_message(&mut self, msg: String, ttl_nanos: u128)
        ensures
            final(self).message == Some(msg),
            final(self).message_set_at is Some,
            *final(self) == (GameDetailScreen {
                message: Some(msg),
                message_set_at: final(self).message_set_at,
                message_ttl_nanos: ttl_nanos,
                ..*old(self)
            }),
    {
        self.message = Some(msg);
        self.message_set_at = Some(instant_now());
        self.message_ttl_nanos = ttl_nanos;
    }

    /// Clear a timed message once `elapsed` nanoseconds since it was shown reach its lifetime.
    pub fn expire_message(&mut self, elapsed: u128)
        ensures
            *final(self) == if old(self).message_set_at is Some && elapsed
                >= old(self).message_ttl_nanos {
                GameDetailScreen { message: None, message_set_at: None, ..*old(self) }
            } else {
                *old(self)
            },
    {
        if self.message_set_at.is_some() && elapsed >= self.message_ttl_nanos {
            self.message = None;
            self.message_set_at = None;
        }
    }

    /// Clear a timed message whose lifetime has passed on the clock. Either the view is
    /// unchanged or exactly the message and its timer are cleared; which one depends on the
    /// time, except that a message without a timer always stays and one with a zero lifetime is
    /// always cleared.
    pub fn tick_message(&mut self)
        ensures
            *final(self) == *old(self) || (old(self).message_set_at is Some && *final(self)
                == (GameDetailScreen { message: None, message_set_at: None, ..*old(self) })),
            old(self).message_set_at is None ==> *final(self) == *old(self),
            old(self).message_set_at is Some && old(self).message_ttl_nanos == 0 ==> *final(self)
                == (GameDetailScreen { message: None, message_set_at: None, ..*old(self) }),
    {
        let elapsed = match &self.message_set_at {
            Some(t) => elapsed_nanos(t),
            None => 0,
        };
        self.expire_message(elapsed);
    }
}

/// Emphasis of a metadata line.
#[derive(Debug, Clone, Copy, PartialEq, Eq, Structural)]
pub enum LineTone {
    Plain,
    Heading,
    Muted,
    Technical,
}

/// One line of the metadata panel: a label, then the text after it.
#[derive(Debug, Clone)]
pub struct MetaLine {
    pub label: &'static str,
    pub text: String,
    pub tone: LineTone,
}

/// The lines as plain values.
pub open spec fn meta_view(v: Seq<MetaLine>) -> Seq<(Seq<char>, Seq<char>, LineTone)> {
    v.map_values(|l: MetaLine| (l.label@, l.text@, l.tone))
}

/// An empty line.
pub open spec fn blank_line() -> (Seq<char>, Seq<char>, LineTone) {
    (""@, ""@, LineTone::Plain)
}

/// The platform name shown for a ROM: its display name, else its custom name, else a dash.
pub open spec fn platform_label(rom: Rom) -> Seq<char> {
    match rom.platform_display_name {
        Some(d) => d@,
        None => match rom.platform_custom_name {
            Some(c) => c@,
            None => "—"@,
        },
    }
}

/// The summary shown: trimmed, a dash when empty.
pub open spec fn summary_text(rom: Rom) -> Seq<char> {
    let s = match rom.summary {
        Some(t) => trim_spec(t@),
        None => Seq::empty(),
    };
    if s.len() == 0 {
        "—"@
    } else {
        s
    }
}

impl GameDetailScreen {
    /// The lines about the other files: a count, the first ten names, how many more.
    pub open spec fn others_lines(&self) -> Seq<(Seq<char>, Seq<char>, LineTone)> {
        let n = self.other_files@.len();
        if n == 0 {
            Seq::empty()
        } else {
            seq![
                blank_line(),
                ("Other files (updates/DLC): "@, decimal(n) + " file(s)"@, LineTone::Heading),
            ] + Seq::new(
                if n < 10 {
                    n
                } else {
                    10
                },
                |i: int| (""@, "  • "@ + self.other_files@[i].fs_name@, LineTone::Plain),
            ) + if n > 10 {
                seq![(""@, "  … and "@ + decimal((n - 10) as nat) + " more"@, LineTone::Plain)]
            } else {
                Seq::empty()
            }
        }
    }

    /// The technical lines, when shown.
    pub open spec fn technical_lines(&self) -> Seq<(Seq<char>, Seq<char>, LineTone)> {
        if !self.show_technical {
            Seq::empty()
        } else {
            seq![
                blank_line(),
                ("Technical:"@, ""@, LineTone::Technical),
                (""@, "  ID: "@ + decimal(self.rom.id as nat), LineTone::Plain),
                (""@, "  Platform ID: "@ + decimal(self.rom.platform_id as nat), LineTone::Plain),
            ] + match self.rom.slug {
                Some(sl) => seq![(""@, "  Slug: "@ + sl@, LineTone::Plain)],
                None => Seq::empty(),
            } + seq![
                (
                    ""@,
                    "  Identified: "@ + if self.rom.is_identified {
                        "true"@
                    } else {
                        "false"@
                    },
                    LineTone::Plain,
                ),
            ]
        }
    }

    /// The metadata panel; `size` is the ROM's size as text.
    pub open spec fn spec_metadata(&self, size: Seq<char>) -> Seq<(Seq<char>, Seq<char>, LineTone)> {
        seq![
            ("Title: "@, self.rom.name@, LineTone::Heading),
            ("Platform: "@, platform_label(self.rom), LineTone::Heading),
            blank_line(),
            ("Overview:"@, ""@, LineTone::Heading),
            (
                "Download: "@,
                if self.has_started_download {
                    "Started"@
                } else {
                    "Not started"@
                },
                LineTone::Muted,
            ),
            (
                "Cover URL: "@,
                if self.rom.url_cover is Some {
                    "Available (o to open)"@
                } else {
                    "Missing"@
                },
                LineTone::Muted,
            ),
            blank_line(),
            ("Summary: "@, ""@, LineTone::Heading),
            (""@, summary_text(self.rom), LineTone::Plain),
            blank_line(),
            ("File: "@, self.rom.fs_path@, LineTone::Heading),
            ("Size: "@, size, LineTone::Heading),
        ] + self.others_lines() + self.technical_lines()
    }

    /// The metadata panel's lines; `size` is the ROM's size as text.
    pub fn metadata_lines(&self, size: &str) -> (v: Vec<MetaLine>)
        requires
            self.other_files@.len() <= u64::MAX,
        ensures
            meta_view(v@) == self.spec_metadata(size@),
    {
        let mut v: Vec<MetaLine> = Vec::new();
        push_line(&mut v, "Title: ", string_of(self.rom.name.as_str()), LineTone::Heading);
        let platform = match &self.rom.platform_display_name {
            Some(d) => string_of(d.as_str()),
            None => match &self.rom.platform_custom_name {
                Some(c) => string_of(c.as_str()),
                None => string_of("—"),
            },
        };
        push_line(&mut v, "Platform: ", platform, LineTone::Heading);
        push_line(&mut v, "", string_of(""), LineTone::Plain);
        push_line(&mut v, "Overview:", string_of(""), LineTone::Heading);
        push_line(
            &mut v,
            "Download: ",
            string_of(
                if self.has_started_download {
                    "Started"
                } else {
                    "Not started"
                },
            ),
            LineTone::Muted,
        );
        push_line(
            &mut v,
            "Cover URL: ",
            string_of(
                if self.rom.url_cover.is_some() {
                    "Available (o to open)"
                } else {
                    "Missing"
                },
            ),
            LineTone::Muted,
        );
        push_line(&mut v, "", string_of(""), LineTone::Plain);
        push_line(&mut v, "Summary: ", string_of(""), LineTone::Heading);
        let summary = match &self.rom.summary {
            Some(t) => trim(t.as_str()),
            None => String::new(),
        };
        let summary = if summary.as_str().is_empty() {
            string_of("—")
        } else {
            summary
        };
        push_line(&mut v, "", summary, LineTone::Plain);
        push_line(&mut v, "", string_of(""), LineTone::Plain);
        push_line(&mut v, "File: ", string_of(self.rom.fs_path.as_str()), LineTone::Heading);
        push_line(&mut v, "Size: ", string_of(size), LineTone::Heading);
        let ghost head = meta_view(v@);
        self.push_others(&mut v);
        let ghost mid = meta_view(v@);
        self.push_technical(&mut v);
        proof {
            reveal_strlit("");
            assert(head =~= seq![
                ("Title: "@, self.rom.name@, LineTone::Heading),
                ("Platform: "@, platform_label(self.rom), LineTone::Heading),
                blank_line(),
                ("Overview:"@, ""@, LineTone::Heading),
                (
                    "Download: "@,
                    if self.has_started_download {
                        "Started"@
                    } else {
                        "Not started"@
                    },
                    LineTone::Muted,
                ),
                (
                    "Cover URL: "@,
                    if self.rom.url_cover is Some {
                        "Available (o to open)"@
                    } else {
                        "Missing"@
                    },
                    LineTone::Muted,
                ),
                blank_line(),
                ("Summary: "@, ""@, LineTone::Heading),
                (""@, summary_text(self.rom), LineTone::Plain),
                blank_line(),
                ("File: "@, self.rom.fs_path@, LineTone::Heading),
                ("Size: "@, size@, LineTone::Heading),
            ]);
            assert(meta_view(v@) =~= self.spec_metadata(size@));
        }
        v
    }

    fn push_others(&self, v: &mut Vec<MetaLine>)
        requires
            self.other_files@.len() <= u64::MAX,
        ensures
            meta_view(final(v)@) == meta_view(old(v)@) + self.others_lines(),
    {
        let n = self.other_files.len();
        if n == 0 {
            assert(meta_view(v@) =~= meta_view(v@) + self.others_lines());
            return;
        }
        let ghost start = meta_view(v@);
        push_line(v, "", string_of(""), LineTone::Plain);
        let count = u64_to_decimal(n as u64);
        push_line(v, "Other files (updates/DLC): ", concat(count.as_str(), " file(s)"), LineTone::Heading);
        let shown = if n < 10 {
            n
        } else {
            10
        };
        let mut i: usize = 0;
        while i < shown
            invariant
                shown <= n,
                n == self.other_files@.len(),
                shown == (if n < 10 {
                    n
                } else {
                    10
                }),
                i <= shown,
                meta_view(v@) == start + seq![
                    blank_line(),
                    ("Other files (updates/DLC): "@, decimal(n as nat) + " file(s)"@, LineTone::Heading),
                ] + Seq::new(
                    i as nat,
                    |k: int| (""@, "  • "@ + self.other_files@[k].fs_name@, LineTone::Plain),
                ),
            decreases shown - i,
        {
            let line = concat("  • ", self.other_files[i].fs_name.as_str());
            push_line(v, "", line, LineTone::Plain);
            i += 1;
            proof {
                reveal_strlit("");
                assert(meta_view(v@) =~= start + seq![
                    blank_line(),
                    ("Other files (updates/DLC): "@, decimal(n as nat) + " file(s)"@, LineTone::Heading),
                ] + Seq::new(
                    i as nat,
                    |k: int| (""@, "  • "@ + self.other_files@[k].fs_name@, LineTone::Plain),
                ));
            }
        }
        let ghost before_more = meta_view(v@);
        if n > 10 {
            let more = u64_to_decimal((n - 10) as u64);
            let a = concat("  … and ", more.as_str());
            push_line(v, "", concat(a.as_str(), " more"), LineTone::Plain);
        }
        proof {
            reveal_strlit("");
            assert(meta_view(v@) =~= meta_view(old(v)@) + self.others_lines());
        }
    }

    fn push_technical(&self, v: &mut Vec<MetaLine>)
        ensures
            meta_view(final(v)@) == meta_view(old(v)@) + self.technical_lines(),
    {
        if !self.show_technical {
            assert(meta_view(v@) =~= meta_view(v@) + self.technical_lines());
            return;
        }
        push_line(v, "", string_of(""), LineTone::Plain);
        push_line(v, "Technical:", string_of(""), LineTone::Technical);
        let id = u64_to_decimal(self.rom.id);
        push_line(v, "", concat("  ID: ", id.as_str()), LineTone::Plain);
        let pid = u64_to_decimal(self.rom.platform_id);
        push_line(v, "", concat("  Platform ID: ", pid.as_str()), LineTone::Plain);
        if let Some(sl) = &self.rom.slug {
            push_line(v, "", concat("  Slug: ", sl.as_str()), LineTone::Plain);
        }
        push_line(
            v,
            "",
            concat(
                "  Identified: ",
                if self.rom.is_identified {
                    "true"
                } else {
                    "false"
                },
            ),
            LineTone::Plain,
        );
        proof {
            reveal_strlit("");
            assert(meta_view(v@) =~= meta_view(old(v)@) + self.technical_lines());
        }
    }
}

fn push_line(v: &mut Vec<MetaLine>, label: &'static str, text: String, tone: LineTone)
    ensures
        meta_view(final(v)@) == meta_view(old(v)@).push((label@, text@, tone)),
{
    v.push(MetaLine { label, text, tone });
    assert(meta_view(v@) =~= meta_view(old(v)@).push((label@, text@, tone)));
}

/// What the footer shows: a job's progress, or a line of text.
pub enum FooterView {
    Progress { label: String, percent: u16, failed: bool },
    Text(String),
}

impl GameDetailScreen {
    /// The footer: the progress of the job that `active_download` picks, else the message,
    /// else the key help.
    pub fn footer_view(&self, jobs: &[DownloadJob]) -> (f: FooterView)
        ensures
            match self.active_download_spec(jobs@) {
                Some(i) => {
                    let j = jobs@[i];
                    f matches FooterView::Progress { label, percent, failed } && percent == j.percent
                        && failed == j.status is Error && label@ == match j.status {
                        DownloadStatus::Downloading => "Downloading… "@ + decimal(j.percent as nat)
                            + "%"@,
                        DownloadStatus::Done => "Download complete"@,
                        DownloadStatus::Error(m) => "Error: "@ + m@,
                    }
                },
                None => f matches FooterView::Text(t) && t@ == match self.message {
                    Some(m) => m@,
                    None => if self.show_technical {
                        "Enter: Download | o: Open cover | m: Hide technical | Esc: Back"@
                    } else {
                        "Enter: Download | o: Open cover | m: More technical details | Esc: Back"@
                    },
                },
            },
    {
        match self.active_download(jobs) {
            Some(i) => {
                let j = &jobs[i];
                let label = match &j.status {
                    DownloadStatus::Downloading => {
                        let p = u64_to_decimal(j.percent as u64);
                        let a = concat("Downloading… ", p.as_str());
                        concat(a.as_str(), "%")
                    },
                    DownloadStatus::Done => string_of("Download complete"),
                    DownloadStatus::Error(m) => concat("Error: ", m.as_str()),
                };
                FooterView::Progress {
                    label,
                    percent: j.percent,
                    failed: matches!(j.status, DownloadStatus::Error(_)),
                }
            },
            None => match &self.message {
                Some(m) => FooterView::Text(string_of(m.as_str())),
                None => FooterView::Text(string_of(self.footer_help_text())),
            },
        }
    }

    /// The job that the footer shows: the last one that `shows_job` admits.
    pub open spec fn active_download_spec(&self, jobs: Seq<DownloadJob>) -> Option<int>
        decreases jobs.len(),
    {
        if jobs.len() == 0 {
            None
        } else if self.shows_job(jobs.last()) {
            Some(jobs.len() - 1)
        } else {
            self.active_download_spec(jobs.drop_last())
        }
    }
}

/// Characters kept in a file name: ASCII letters and digits, space, `-`, `_`, `.`; others
/// become `_`.
pub open spec fn safe_char(c: char) -> char {
    if ('a' <= c <= 'z') || ('A' <= c <= 'Z') || ('0' <= c <= '9') || c == ' ' || c == '-' || c
        == '_' || c == '.' {
        c
    } else {
        '_'
    }
}

/// `s` without leading dots.
pub open spec fn trim_dots_start(s: Seq<char>) -> Seq<char>
    decreases s.len(),
{
    if s.len() > 0 && s[0] == '.' {
        trim_dots_start(s.drop_first())
    } else {
        s
    }
}

/// `s` without trailing dots.
pub open spec fn trim_dots_end(s: Seq<char>) -> Seq<char>
    decreases s.len(),
{
    if s.len() > 0 && s.last() == '.' {
        trim_dots_end(s.drop_last())
    } else {
        s
    }
}

/// A file name made safe for a path segment: characters mapped by `safe_char`, then
/// trimmed of whitespace, dots and whitespace again; `game` when nothing is left.
pub open spec fn spec_safe_path_segment(s: Seq<char>) -> Seq<char> {
    let cleaned = Seq::new(s.len(), |i: int| safe_char(s[i]));
    let t = trim_spec(trim_dots_end(trim_dots_start(trim_spec(cleaned))));
    if t.len() == 0 {
        "game"@
    } else {
        t
    }
}

/// A file name made safe for a path segment (see `spec_safe_path_segment`).
pub fn safe_path_segment(input: &str) -> (out: String)
    ensures
        out@ == spec_safe_path_segment(input@),
{
    let cs = crate::text::chars_of(input);
    let mut cleaned: Vec<char> = Vec::new();
    let mut i: usize = 0;
    while i < cs.len()
        invariant
            cs@ == input@,
            i <= cs@.len(),
            cleaned@ == Seq::new(i as nat, |k: int| safe_char(input@[k])),
        decreases cs@.len() - i,
    {
        let c = cs[i];
        let d = if ('a' <= c && c <= 'z') || ('A' <= c && c <= 'Z') || ('0' <= c && c <= '9')
            || c == ' ' || c == '-' || c == '_' || c == '.' {
            c
        } else {
            '_'
        };
        cleaned.push(d);
        i += 1;
        assert(cleaned@ =~= Seq::new(i as nat, |k: int| safe_char(input@[k])));
    }
    let t1 = crate::text::trim_chars(cleaned.as_slice());
    let mut a: usize = 0;
    assert(t1@.subrange(0, t1@.len() as int) =~= t1@);
    while a < t1.len() && t1[a] == '.'
        invariant
            a <= t1@.len(),
            trim_dots_start(t1@) == trim_dots_start(t1@.subrange(a as int, t1@.len() as int)),
        decreases t1@.len() - a,
    {
        assert(t1@.subrange(a as int, t1@.len() as int).drop_first() =~= t1@.subrange(
            a + 1,
            t1@.len() as int,
        ));
        a += 1;
    }
    let ghost mid = t1@.subrange(a as int, t1@.len() as int);
    assert(trim_dots_start(t1@) == mid);
    let mut b: usize = t1.len();
    while b > a && t1[b - 1] == '.'
        invariant
            a <= b <= t1@.len(),
            mid == t1@.subrange(a as int, t1@.len() as int),
            trim_dots_end(mid) == trim_dots_end(t1@.subrange(a as int, b as int)),
        decreases b,
    {
        assert(t1@.subrange(a as int, b as int).drop_last() =~= t1@.subrange(a as int, b - 1));
        b -= 1;
    }
    let mut core: Vec<char> = Vec::new();
    let mut k: usize = a;
    while k < b
        invariant
            a <= k <= b <= t1@.len(),
            core@ == t1@.subrange(a as int, k as int),
        decreases b - k,
    {
        core.push(t1[k]);
        k += 1;
        assert(core@ =~= t1@.subrange(a as int, k as int));
    }
    let t2 = crate::text::trim_chars(core.as_slice());
    if t2.len() == 0 {
        string_of("game")
    } else {
        crate::text::string_from_chars(t2.as_slice())
    }
}

/// The Platform line of the metadata panel shows the ROM's platform display name when it has
/// one; only without it does the custom name show, and a dash without either.
pub proof fn lemma_metadata_platform_line(d: GameDetailScreen, size: Seq<char>)
    ensures
        d.spec_metadata(size).len() > 1,
        d.spec_metadata(size)[1].0 == "Platform: "@,
        d.rom.platform_display_name matches Some(n) ==> d.spec_metadata(size)[1].1 == n@,
        d.rom.platform_display_name is None ==> (d.rom.platform_custom_name matches Some(c)
            ==> d.spec_metadata(size)[1].1 == c@),
        d.rom.platform_display_name is None && d.rom.platform_custom_name is None
            ==> d.spec_metadata(size)[1].1 == "—"@,
{
}

} // verus!
