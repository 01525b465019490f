//! Settings screen state: tabs of rows with a remembered selection per tab, row activation,
//! the URL edit field, the device and console pickers, and the row labels.
//!
//! Directory browsing widgets live with the terminal front end; this state records which
//! picker is open and hands back what a picker needs to start.

use vstd::prelude::*;
use std::collections::HashMap;
use crate::openapi::{replace_all, replace_all_chars};
use crate::text::{
    byte_len, char_width, chars_before, chars_of, concat, decimal, on_char_boundary, seq_starts_with,
    str_byte_len, str_eq, str_starts_with, string_from_chars, string_insert, string_of,
    string_remove, trim_spec,
};
use crate::types::Platform;

verus! {

broadcast use vstd::std_specs::hash::group_hash_axioms;

/// Settings tabs, left to right.
#[derive(Debug, Clone, Copy, PartialEq, Eq, Structural)]
pub enum SettingsTab {
    Connection,
    Roms,
    Saves,
    Extras,
    AuthMaintenance,
}

/// Number of tabs.
pub const SETTINGS_TAB_COUNT: usize = 5;

impl SettingsTab {
    pub open spec fn spec_index(self) -> usize {
        match self {
            SettingsTab::Connection => 0,
            SettingsTab::Roms => 1,
            SettingsTab::Saves => 2,
            SettingsTab::Extras => 3,
            SettingsTab::AuthMaintenance => 4,
        }
    }

    /// Position of the tab, left to right.
    pub fn index(self) -> (i: usize)
        ensures
            i == self.spec_index(),
    {
        match self {
            SettingsTab::Connection => 0,
            SettingsTab::Roms => 1,
            SettingsTab::Saves => 2,
            SettingsTab::Extras => 3,
            SettingsTab::AuthMaintenance => 4,
        }
    }

    /// Title shown on the tab bar.
    pub fn title(self) -> (t: &'static str)
        ensures
            t@ == match self {
                SettingsTab::Connection => "Connection"@,
                SettingsTab::Roms => "ROMs"@,
                SettingsTab::Saves => "Saves"@,
                SettingsTab::Extras => "Extras"@,
                SettingsTab::AuthMaintenance => "Auth/Maint"@,
            },
    {
        match self {
            SettingsTab::Connection => "Connection",
            SettingsTab::Roms => "ROMs",
            SettingsTab::Saves => "Saves",
            SettingsTab::Extras => "Extras",
            SettingsTab::AuthMaintenance => "Auth/Maint",
        }
    }
}

/// The tab at position `i` (`i < SETTINGS_TAB_COUNT`).
pub open spec fn spec_tab_at(i: usize) -> SettingsTab {
    if i == 0 {
        SettingsTab::Connection
    } else if i == 1 {
        SettingsTab::Roms
    } else if i == 2 {
        SettingsTab::Saves
    } else if i == 3 {
        SettingsTab::Extras
    } else {
        SettingsTab::AuthMaintenance
    }
}

/// The tab at position `i`.
pub fn tab_at(i: usize) -> (t: SettingsTab)
    requires
        i < SETTINGS_TAB_COUNT,
    ensures
        t == spec_tab_at(i),
        t.spec_index() == i,
{
    if i == 0 {
        SettingsTab::Connection
    } else if i == 1 {
        SettingsTab::Roms
    } else if i == 2 {
        SettingsTab::Saves
    } else if i == 3 {
        SettingsTab::Extras
    } else {
        SettingsTab::AuthMaintenance
    }
}

/// One row of a settings tab.
#[derive(Debug, Clone, Copy, PartialEq, Eq, Structural)]
pub enum SettingsRow {
    BaseUrl,
    RomsDir,
    ConsolePaths,
    UseHttps,
    SaveDir,
    SaveConsolePaths,
    SyncDevice,
    SyncNow,
    ExtrasRelatedRoms,
    ExtrasCover,
    ExtrasManual,
    Auth,
    ClearCache,
    ResetConfiguration,
}

/// Rows of each tab, top to bottom.
pub open spec fn tab_rows(tab: SettingsTab) -> Seq<SettingsRow> {
    match tab {
        SettingsTab::Connection => seq![SettingsRow::BaseUrl, SettingsRow::UseHttps],
        SettingsTab::Roms => seq![SettingsRow::RomsDir, SettingsRow::ConsolePaths],
        SettingsTab::Saves => seq![
            SettingsRow::SaveDir,
            SettingsRow::SaveConsolePaths,
            SettingsRow::SyncDevice,
            SettingsRow::SyncNow,
        ],
        SettingsTab::Extras => seq![
            SettingsRow::ExtrasRelatedRoms,
            SettingsRow::ExtrasCover,
            SettingsRow::ExtrasManual,
        ],
        SettingsTab::AuthMaintenance => seq![
            SettingsRow::Auth,
            SettingsRow::ClearCache,
            SettingsRow::ResetConfiguration,
        ],
    }
}

/// Rows of a tab.
pub fn rows_of(tab: SettingsTab) -> (v: Vec<SettingsRow>)
    ensures
        v@ == tab_rows(tab),
{
    let mut v: Vec<SettingsRow> = Vec::new();
    match tab {
        SettingsTab::Connection => {
            v.push(SettingsRow::BaseUrl);
            v.push(SettingsRow::UseHttps);
        },
        SettingsTab::Roms => {
            v.push(SettingsRow::RomsDir);
            v.push(SettingsRow::ConsolePaths);
        },
        SettingsTab::Saves => {
            v.push(SettingsRow::SaveDir);
            v.push(SettingsRow::SaveConsolePaths);
            v.push(SettingsRow::SyncDevice);
            v.push(SettingsRow::SyncNow);
        },
        SettingsTab::Extras => {
            v.push(SettingsRow::ExtrasRelatedRoms);
            v.push(SettingsRow::ExtrasCover);
            v.push(SettingsRow::ExtrasManual);
        },
        SettingsTab::AuthMaintenance => {
            v.push(SettingsRow::Auth);
            v.push(SettingsRow::ClearCache);
            v.push(SettingsRow::ResetConfiguration);
        },
    }
    assert(v@ =~= tab_rows(tab));
    v
}

/// Which directory a path picker chooses.
#[derive(Debug, Clone, Copy, PartialEq, Eq, Structural)]
pub enum SettingsPickerKind {
    RomsDir,
    SaveDir,
}

/// Which per-console directories the console picker edits.
#[derive(Debug, Clone, Copy, PartialEq, Eq, Structural)]
pub enum ConsolePathKind {
    Roms,
    Saves,
}

/// A destructive action waiting for confirmation.
#[derive(Debug, Clone, Copy, PartialEq, Eq, Structural)]
pub enum SettingsConfirm {
    Reset,
    ClearCache,
}

/// How a status message is shown.
#[derive(Debug, Clone, Copy, PartialEq, Eq, Structural)]
pub enum MessageTone {
    Success,
    Warning,
}

/// Whether the server offers save sync, and what to tell the user when it does not.
#[derive(Debug, Clone)]
pub struct SaveSyncCompatibility {
    pub supported: bool,
    pub unsupported_message: String,
}

/// A sync device offered by the server.
#[derive(Debug, Clone)]
pub struct SyncDevice {
    pub id: String,
    pub name: Option<String>,
    pub sync_mode: String,
}

/// Credentials in use, as far as the settings screen shows them.
pub enum AuthSummary {
    Basic { username: String },
    Bearer,
    ApiKey { header: String },
}

/// The "Auth" line: the kind of credentials; without credentials, whether the disk still
/// refers to the keyring.
pub fn auth_status_text(auth: &Option<AuthSummary>, disk_refers_to_keyring: bool) -> (s: String)
    ensures
        s@ == match auth {
            Some(AuthSummary::Basic { username }) => "Basic (user: "@ + username@ + ")"@,
            Some(AuthSummary::Bearer) => "API Token"@,
            Some(AuthSummary::ApiKey { header }) => "API key (header: "@ + header@ + ")"@,
            None => if disk_refers_to_keyring {
                "None — disk still references keyring; set API_TOKEN / ROMM_TOKEN_FILE or see docs/troubleshooting-auth.md"@
            } else {
                "None (no API credentials in env/keyring)"@
            },
        },
{
    match auth {
        Some(AuthSummary::Basic { username }) => {
            let a = concat("Basic (user: ", username.as_str());
            concat(a.as_str(), ")")
        },
        Some(AuthSummary::Bearer) => string_of("API Token"),
        Some(AuthSummary::ApiKey { header }) => {
            let a = concat("API key (header: ", header.as_str());
            concat(a.as_str(), ")")
        },
        None => if disk_refers_to_keyring {
            string_of(
                "None — disk still references keyring; set API_TOKEN / ROMM_TOKEN_FILE or see docs/troubleshooting-auth.md",
            )
        } else {
            string_of("None (no API credentials in env/keyring)")
        },
    }
}

/// What the front end must do after a row was activated.
pub enum SettingsIntent {
    Nothing,
    /// Open a directory picker at this path.
    OpenPathPicker(SettingsPickerKind, String),
    /// Fetch the server's sync devices.
    LoadDevices,
    /// Start a save sync.
    StartSaveSync,
}

/// Values the settings screen starts from.
pub struct SettingsInit {
    pub base_url: String,
    pub download_dir: String,
    pub save_dir: String,
    pub sync_device_id: Option<String>,
    pub use_https: bool,
    pub extras_include_related_roms: bool,
    pub extras_include_cover: bool,
    pub extras_include_manual: bool,
    pub auth_status: String,
    pub version: String,
    pub rom_platform_dirs: HashMap<u64, String>,
    pub save_platform_dirs: HashMap<u64, String>,
}

/// Interactive settings screen.
pub struct SettingsScreen {
    pub base_url: String,
    pub download_dir: String,
    pub use_https: bool,
    pub extras_include_related_roms: bool,
    pub extras_include_cover: bool,
    pub extras_include_manual: bool,
    pub auth_status: String,
    pub version: String,
    pub server_version: String,
    pub github_url: String,
    pub selected_tab: SettingsTab,
    /// Remembered row of each tab, by tab position.
    pub selected_indices: Vec<usize>,
    pub editing: bool,
    pub confirm: Option<SettingsConfirm>,
    pub edit_buffer: String,
    pub edit_cursor: usize,
    /// The directory picker that is open, if any.
    pub path_picker: Option<SettingsPickerKind>,
    pub save_dir: String,
    pub sync_device_id: Option<String>,
    pub devices: Vec<SyncDevice>,
    pub device_picker_open: bool,
    pub device_picker_loading: bool,
    pub device_picker_error: Option<String>,
    pub device_selected_index: usize,
    pub sync_inflight: bool,
    pub message: Option<(String, MessageTone)>,
    pub save_sync_compat: SaveSyncCompatibility,
    pub rom_platform_dirs: HashMap<u64, String>,
    pub save_platform_dirs: HashMap<u64, String>,
    pub console_picker_open: bool,
    pub active_console_kind: Option<ConsolePathKind>,
    pub console_picker_loading: bool,
    pub console_picker_error: Option<String>,
    pub console_platforms: Vec<Platform>,
    pub console_selected_index: usize,
    /// The console whose directory picker is open, if any.
    pub console_path_platform: Option<u64>,
}

impl SettingsScreen {
    /// The screen's own consistency: one remembered row per tab.
    pub open spec fn wf(&self) -> bool {
        self.selected_indices@.len() == SETTINGS_TAB_COUNT
    }

    /// Rows of the selected tab.
    pub open spec fn rows(&self) -> Seq<SettingsRow> {
        tab_rows(self.selected_tab)
    }

    /// Index of the selected row in the selected tab (the remembered index, clamped).
    pub open spec fn row_index(&self) -> usize {
        let r = self.selected_indices@[self.selected_tab.spec_index() as int];
        if r < self.rows().len() - 1 {
            r
        } else {
            (self.rows().len() - 1) as usize
        }
    }

    /// The selected row.
    pub open spec fn spec_selected_row(&self) -> SettingsRow {
        self.rows()[self.row_index() as int]
    }

    pub fn new(init: SettingsInit, server_version: Option<String>, compat: SaveSyncCompatibility) -> (s:
        SettingsScreen)
        ensures
            s.wf(),
            s.base_url == init.base_url,
            s.download_dir == init.download_dir,
            s.save_dir == init.save_dir,
            s.sync_device_id == init.sync_device_id,
            s.use_https == init.use_https,
            s.extras_include_related_roms == init.extras_include_related_roms,
            s.extras_include_cover == init.extras_include_cover,
            s.extras_include_manual == init.extras_include_manual,
            s.auth_status == init.auth_status,
            s.version == init.version,
            s.server_version@ == match server_version {
                Some(v) => v@,
                None => "unavailable (heartbeat failed)"@,
            },
            s.github_url@ == "https://github.com/patricksmill/romm-cli"@,
            s.selected_tab == SettingsTab::Connection,
            forall|i: int| 0 <= i < SETTINGS_TAB_COUNT ==> s.selected_indices@[i] == 0,
            !s.editing,
            s.confirm is None,
            s.edit_buffer@.len() == 0,
            s.edit_cursor == 0,
            s.path_picker is None,
            s.devices@.len() == 0,
            !s.device_picker_open && !s.device_picker_loading && s.device_picker_error is None,
            s.device_selected_index == 0,
            !s.sync_inflight,
            s.message is None,
            s.save_sync_compat == compat,
            s.rom_platform_dirs == init.rom_platform_dirs,
            s.save_platform_dirs == init.save_platform_dirs,
            !s.console_picker_open && s.active_console_kind is None,
            !s.console_picker_loading && s.console_picker_error is None,
            s.console_platforms@.len() == 0,
            s.console_selected_index == 0,
            s.console_path_platform is None,
    {
        let server_version = match server_version {
            Some(v) => v,
            None => string_of("unavailable (heartbeat failed)"),
        };
        let mut selected_indices: Vec<usize> = Vec::new();
        let mut i: usize = 0;
        while i < SETTINGS_TAB_COUNT
            invariant
                i <= SETTINGS_TAB_COUNT,
                selected_indices@.len() == i,
                forall|j: int| 0 <= j < i ==> selected_indices@[j] == 0,
            decreases SETTINGS_TAB_COUNT - i,
        {
            selected_indices.push(0);
            i += 1;
        }
        SettingsScreen {
            base_url: init.base_url,
            download_dir: init.download_dir,
            use_https: init.use_https,
            extras_include_related_roms: init.extras_include_related_roms,
            extras_include_cover: init.extras_include_cover,
            extras_include_manual: init.extras_include_manual,
            auth_status: init.auth_status,
            version: init.version,
            server_version,
            github_url: string_of("https://github.com/patricksmill/romm-cli"),
            selected_tab: SettingsTab::Connection,
            selected_indices,
            editing: false,
            confirm: None,
            edit_buffer: String::new(),
            edit_cursor: 0,
            path_picker: None,
            save_dir: init.save_dir,
            sync_device_id: init.sync_device_id,
            devices: Vec::new(),
            device_picker_open: false,
            device_picker_loading: false,
            device_picker_error: None,
            device_selected_index: 0,
            sync_inflight: false,
            message: None,
            save_sync_compat: compat,
            rom_platform_dirs: init.rom_platform_dirs,
            save_platform_dirs: init.save_platform_dirs,
            console_picker_open: false,
            active_console_kind: None,
            console_picker_loading: false,
            console_picker_error: None,
            console_platforms: Vec::new(),
            console_selected_index: 0,
            console_path_platform: None,
        }
    }

    /// Rows of the selected tab.
    pub fn visible_rows(&self) -> (v: Vec<SettingsRow>)
        ensures
            v@ == self.rows(),
    {
        rows_of(self.selected_tab)
    }

    /// Rows of the selected tab through the older fixed tables, which list no rows for ROMs.
    pub fn active_rows(&self) -> (v: Vec<SettingsRow>)
        ensures
            v@ == if self.selected_tab == SettingsTab::Roms {
                Seq::empty()
            } else {
                self.rows()
            },
    {
        match self.selected_tab {
            SettingsTab::Roms => Vec::new(),
            _ => rows_of(self.selected_tab),
        }
    }

    /// Index of the selected row (see `row_index`).
    pub fn selected_row_index(&self) -> (i: usize)
        requires
            self.wf(),
        ensures
            i == self.row_index(),
    {
        let len = rows_of(self.selected_tab).len();
        let r = self.selected_indices[self.selected_tab.index()];
        if r < len - 1 {
            r
        } else {
            len - 1
        }
    }

    /// The selected row.
    pub fn selected_row(&self) -> (r: SettingsRow)
        requires
            self.wf(),
        ensures
            r == self.spec_selected_row(),
    {
        let rows = rows_of(self.selected_tab);
        rows[self.selected_row_index()]
    }

    fn set_selected_row_index(&mut self, index: usize)
        requires
            old(self).wf(),
        ensures
            *final(self) == (SettingsScreen {
                selected_indices: final(self).selected_indices,
                ..*old(self)
            }),
            final(self).selected_indices@ == old(self).selected_indices@.update(
                old(self).selected_tab.spec_index() as int,
                if index < old(self).rows().len() - 1 {
                    index
                } else {
                    (old(self).rows().len() - 1) as usize
                },
            ),
            final(self).wf(),
    {
        let max = rows_of(self.selected_tab).len() - 1;
        let v = if index < max {
            index
        } else {
            max
        };
        let t = self.selected_tab.index();
        self.selected_indices.set(t, v);
    }

    /// The row clamp of the current tab, written back.
    pub open spec fn clamped_indices(&self) -> Seq<usize> {
        self.selected_indices@.update(self.selected_tab.spec_index() as int, self.row_index())
    }

    /// Moving one row down (`forward`) or up in the tab, wrapping; only the remembered rows
    /// change, and nothing happens while editing or confirming.
    pub open spec fn row_step_post(o: SettingsScreen, n: SettingsScreen, forward: bool) -> bool {
        if o.editing || o.confirm is Some {
            n == o
        } else {
            &&& n.row_index() == if forward {
                ((o.row_index() + 1) % (o.rows().len() as int)) as usize
            } else if o.row_index() == 0 {
                (o.rows().len() - 1) as usize
            } else {
                (o.row_index() - 1) as usize
            }
            &&& n == (SettingsScreen { selected_indices: n.selected_indices, ..o })
        }
    }

    /// Moving `step` tabs to the right (wrapping): the row of the tab left is remembered
    /// (clamped to its rows); nothing happens while editing or confirming.
    pub open spec fn tab_step_post(o: SettingsScreen, n: SettingsScreen, step: int) -> bool {
        if o.editing || o.confirm is Some {
            n == o
        } else {
            &&& n.selected_tab == spec_tab_at(
                ((o.selected_tab.spec_index() + step) % (SETTINGS_TAB_COUNT as int)) as usize,
            )
            &&& n.selected_indices@ == (SettingsScreen { selected_tab: n.selected_tab, ..o }).clamped_indices()
            &&& n == (SettingsScreen {
                selected_tab: n.selected_tab,
                selected_indices: n.selected_indices,
                ..o
            })
        }
    }

    /// Next tab (wrapping), keeping each tab's remembered row; nothing while editing or
    /// confirming.
    pub fn next_tab(&mut self)
        requires
            old(self).wf(),
        ensures
            final(self).wf(),
            Self::tab_step_post(*old(self), *final(self), 1),
    {
        if self.editing || self.confirm.is_some() {
            return ;
        }
        let next = (self.selected_tab.index() + 1) % SETTINGS_TAB_COUNT;
        self.selected_tab = tab_at(next);
        let r = self.selected_row_index();
        self.set_selected_row_index(r);
    }

    /// Previous tab (wrapping), keeping each tab's remembered row; nothing while editing or
    /// confirming.
    pub fn previous_tab(&mut self)
        requires
            old(self).wf(),
        ensures
            final(self).wf(),
            Self::tab_step_post(*old(self), *final(self), SETTINGS_TAB_COUNT - 1),
    {
        if self.editing || self.confirm.is_some() {
            return ;
        }
        let previous = (self.selected_tab.index() + SETTINGS_TAB_COUNT - 1) % SETTINGS_TAB_COUNT;
        self.selected_tab = tab_at(previous);
        let r = self.selected_row_index();
        self.set_selected_row_index(r);
    }

    /// Next row of the tab, wrapping; nothing while editing or confirming.
    pub fn next(&mut self)
        requires
            old(self).wf(),
        ensures
            final(self).wf(),
            Self::row_step_post(*old(self), *final(self), true),
    {
        if !self.editing && self.confirm.is_none() {
            let len = rows_of(self.selected_tab).len();
            let r = self.selected_row_index();
            self.set_selected_row_index((r + 1) % len);
        }
    }

    /// Previous row of the tab, wrapping; nothing while editing or confirming.
    pub fn previous(&mut self)
        requires
            old(self).wf(),
        ensures
            final(self).wf(),
            Self::row_step_post(*old(self), *final(self), false),
    {
        if !self.editing && self.confirm.is_none() {
            let len = rows_of(self.selected_tab).len();
            let r = self.selected_row_index();
            if r == 0 {
                self.set_selected_row_index(len - 1);
            } else {
                self.set_selected_row_index(r - 1);
            }
        }
    }
}

/// `s` with every `from` replaced by `to` when it starts with `from` (the URL scheme switch).
pub open spec fn switch_scheme(s: Seq<char>, from: Seq<char>, to: Seq<char>) -> Option<Seq<char>> {
    if seq_starts_with(s, from) {
        Some(replace_all(s, from, to))
    } else {
        None
    }
}

/// "on" / "off".
pub open spec fn on_off(b: bool) -> Seq<char> {
    if b {
        "on"@
    } else {
        "off"@
    }
}

fn on_off_exec(b: bool) -> (s: &'static str)
    ensures
        s@ == on_off(b),
{
    if b {
        "on"
    } else {
        "off"
    }
}

/// "[X] Yes" / "[ ] No".
pub open spec fn check_box(b: bool) -> Seq<char> {
    if b {
        "[X] Yes"@
    } else {
        "[ ] No"@
    }
}

fn check_box_exec(b: bool) -> (s: &'static str)
    ensures
        s@ == check_box(b),
{
    if b {
        "[X] Yes"
    } else {
        "[ ] No"
    }
}

fn message(text: String, tone: MessageTone) -> (m: Option<(String, MessageTone)>)
    ensures
        m matches Some((t, k)) && t == text && k == tone,
{
    Some((text, tone))
}

impl SettingsScreen {
    /// The status message `m` with tone `tone`.
    pub open spec fn says(&self, m: Seq<char>, tone: MessageTone) -> bool {
        self.message matches Some((t, k)) && t@ == m && k == tone
    }

    /// Toggle HTTPS and switch a matching URL scheme (see `enter_edit`).
    fn toggle_https(&mut self)
        ensures
            ({
                let https = !old(self).use_https;
                let (from, to, m) = if https {
                    ("http://"@, "https://"@, "Updated URL scheme (HTTPS)"@)
                } else {
                    ("https://"@, "http://"@, "Updated URL scheme (HTTP)"@)
                };
                &&& final(self).use_https == https
                &&& match switch_scheme(old(self).base_url@, from, to) {
                    Some(u) => final(self).base_url@ == u && final(self).says(m, MessageTone::Success)
                        && *final(self) == (SettingsScreen {
                        use_https: https,
                        base_url: final(self).base_url,
                        message: final(self).message,
                        ..*old(self)
                    }),
                    None => *final(self) == (SettingsScreen { use_https: https, ..*old(self) }),
                }
            }),
    {
        self.use_https = !self.use_https;
        if self.use_https && str_starts_with(self.base_url.as_str(), "http://") {
            let cs = chars_of(self.base_url.as_str());
            let from = chars_of("http://");
            let to = chars_of("https://");
            proof {
                reveal_strlit("http://");
            }
            let out = replace_all_chars(cs.as_slice(), from.as_slice(), to.as_slice());
            self.base_url = string_from_chars(out.as_slice());
            self.message = message(
                string_of("Updated URL scheme (HTTPS)"),
                MessageTone::Success,
            );
        } else if !self.use_https && str_starts_with(self.base_url.as_str(), "https://") {
            let cs = chars_of(self.base_url.as_str());
            let from = chars_of("https://");
            let to = chars_of("http://");
            proof {
                reveal_strlit("https://");
            }
            let out = replace_all_chars(cs.as_slice(), from.as_slice(), to.as_slice());
            self.base_url = string_from_chars(out.as_slice());
            self.message = message(
                string_of("Updated URL scheme (HTTP)"),
                MessageTone::Success,
            );
        }
    }

    /// What activating the selected row does (see `enter_edit`): `o` before, `n` after.
    pub open spec fn enter_edit_post(o: SettingsScreen, n: SettingsScreen, intent: SettingsIntent) -> bool {
        match o.spec_selected_row() {
            SettingsRow::ResetConfiguration => n == (SettingsScreen {
                confirm: Some(SettingsConfirm::Reset),
                ..o
            }) && intent is Nothing,
            SettingsRow::ClearCache => n == (SettingsScreen {
                confirm: Some(SettingsConfirm::ClearCache),
                ..o
            }) && intent is Nothing,
            SettingsRow::SyncDevice => if !o.save_sync_compat.supported {
                &&& n.says(o.save_sync_compat.unsupported_message@, MessageTone::Warning)
                &&& n == (SettingsScreen { message: n.message, ..o })
                &&& intent is Nothing
            } else {
                &&& n.says("Loading devices..."@, MessageTone::Warning)
                &&& n == (SettingsScreen {
                    message: n.message,
                    device_picker_open: true,
                    device_picker_loading: true,
                    device_picker_error: None,
                    ..o
                })
                &&& intent is LoadDevices
            },
            SettingsRow::SyncNow => if !o.save_sync_compat.supported {
                &&& n.says(o.save_sync_compat.unsupported_message@, MessageTone::Warning)
                &&& n == (SettingsScreen { message: n.message, ..o })
                &&& intent is Nothing
            } else {
                &&& n.says("Starting save sync..."@, MessageTone::Warning)
                &&& n == (SettingsScreen { message: n.message, ..o })
                &&& intent is StartSaveSync
            },
            SettingsRow::ExtrasManual => {
                &&& n.extras_include_manual == !o.extras_include_manual
                &&& n.says(
                    "Extras default (manual): "@ + on_off(n.extras_include_manual),
                    MessageTone::Success,
                )
                &&& n == (SettingsScreen {
                    extras_include_manual: n.extras_include_manual,
                    message: n.message,
                    ..o
                })
                &&& intent is Nothing
            },
            SettingsRow::ExtrasCover => {
                &&& n.extras_include_cover == !o.extras_include_cover
                &&& n.says(
                    "Extras default (cover): "@ + on_off(n.extras_include_cover),
                    MessageTone::Success,
                )
                &&& n == (SettingsScreen {
                    extras_include_cover: n.extras_include_cover,
                    message: n.message,
                    ..o
                })
                &&& intent is Nothing
            },
            SettingsRow::ExtrasRelatedRoms => {
                &&& n.extras_include_related_roms == !o.extras_include_related_roms
                &&& n.says(
                    "Extras default (updates/DLC): "@ + on_off(n.extras_include_related_roms),
                    MessageTone::Success,
                )
                &&& n == (SettingsScreen {
                    extras_include_related_roms: n.extras_include_related_roms,
                    message: n.message,
                    ..o
                })
                &&& intent is Nothing
            },
            SettingsRow::UseHttps => {
                let https = !o.use_https;
                let (from, to, m) = if https {
                    ("http://"@, "https://"@, "Updated URL scheme (HTTPS)"@)
                } else {
                    ("https://"@, "http://"@, "Updated URL scheme (HTTP)"@)
                };
                &&& n.use_https == https
                &&& intent is Nothing
                &&& match switch_scheme(o.base_url@, from, to) {
                    Some(u) => n.base_url@ == u && n.says(m, MessageTone::Success)
                        && n == (SettingsScreen {
                        use_https: https,
                        base_url: n.base_url,
                        message: n.message,
                        ..o
                    }),
                    None => n == (SettingsScreen { use_https: https, ..o }),
                }
            },
            SettingsRow::RomsDir => n == (SettingsScreen {
                path_picker: Some(SettingsPickerKind::RomsDir),
                ..o
            }) && (intent matches SettingsIntent::OpenPathPicker(k, p) && k
                == SettingsPickerKind::RomsDir && p@ == o.download_dir@),
            SettingsRow::SaveDir => n == (SettingsScreen {
                path_picker: Some(SettingsPickerKind::SaveDir),
                ..o
            }) && (intent matches SettingsIntent::OpenPathPicker(k, p) && k
                == SettingsPickerKind::SaveDir && p@ == o.save_dir@),
            SettingsRow::BaseUrl => {
                &&& n.editing
                &&& n.edit_buffer@ == o.base_url@
                &&& n.edit_cursor == byte_len(o.base_url@)
                &&& n == (SettingsScreen {
                    editing: true,
                    edit_buffer: n.edit_buffer,
                    edit_cursor: n.edit_cursor,
                    ..o
                })
                &&& intent is Nothing
            },
            SettingsRow::ConsolePaths | SettingsRow::SaveConsolePaths | SettingsRow::Auth => {
                n == o && intent is Nothing
            },
        }
    }

    fn activate_confirm(&mut self, row: SettingsRow) -> (intent: SettingsIntent)
        requires
            old(self).wf(),
            row == old(self).spec_selected_row(),
            row == SettingsRow::ResetConfiguration || row == SettingsRow::ClearCache,
        ensures
            Self::enter_edit_post(*old(self), *final(self), intent),
    {
        if row == SettingsRow::ResetConfiguration {
            self.confirm = Some(SettingsConfirm::Reset);
        } else {
            self.confirm = Some(SettingsConfirm::ClearCache);
        }
        SettingsIntent::Nothing
    }

    fn activate_sync(&mut self, row: SettingsRow) -> (intent: SettingsIntent)
        requires
            old(self).wf(),
            row == old(self).spec_selected_row(),
            row == SettingsRow::SyncDevice || row == SettingsRow::SyncNow,
        ensures
            Self::enter_edit_post(*old(self), *final(self), intent),
    {
        if !self.save_sync_compat.supported {
            self.set_save_sync_unsupported_message();
            return SettingsIntent::Nothing;
        }
        if row == SettingsRow::SyncDevice {
            self.device_picker_open = true;
            self.device_picker_loading = true;
            self.device_picker_error = None;
            self.message = message(string_of("Loading devices..."), MessageTone::Warning);
            SettingsIntent::LoadDevices
        } else {
            self.message = message(string_of("Starting save sync..."), MessageTone::Warning);
            SettingsIntent::StartSaveSync
        }
    }

    fn activate_extras(&mut self, row: SettingsRow) -> (intent: SettingsIntent)
        requires
            old(self).wf(),
            row == old(self).spec_selected_row(),
            row == SettingsRow::ExtrasManual || row == SettingsRow::ExtrasCover || row
                == SettingsRow::ExtrasRelatedRoms,
        ensures
            Self::enter_edit_post(*old(self), *final(self), intent),
    {
        if row == SettingsRow::ExtrasManual {
            self.extras_include_manual = !self.extras_include_manual;
            self.message = message(
                concat("Extras default (manual): ", on_off_exec(self.extras_include_manual)),
                MessageTone::Success,
            );
        } else if row == SettingsRow::ExtrasCover {
            self.extras_include_cover = !self.extras_include_cover;
            self.message = message(
                concat("Extras default (cover): ", on_off_exec(self.extras_include_cover)),
                MessageTone::Success,
            );
        } else {
            self.extras_include_related_roms = !self.extras_include_related_roms;
            self.message = message(
                concat(
                    "Extras default (updates/DLC): ",
                    on_off_exec(self.extras_include_related_roms),
                ),
                MessageTone::Success,
            );
        }
        SettingsIntent::Nothing
    }

    fn activate_other(&mut self, row: SettingsRow) -> (intent: SettingsIntent)
        requires
            old(self).wf(),
            row == old(self).spec_selected_row(),
            row == SettingsRow::UseHttps || row == SettingsRow::RomsDir || row == SettingsRow::SaveDir
                || row == SettingsRow::BaseUrl || row == SettingsRow::ConsolePaths || row
                == SettingsRow::SaveConsolePaths || row == SettingsRow::Auth,
        ensures
            Self::enter_edit_post(*old(self), *final(self), intent),
    {
        match row {
            SettingsRow::UseHttps => {
                self.toggle_https();
                SettingsIntent::Nothing
            },
            SettingsRow::RomsDir => {
                self.path_picker = Some(SettingsPickerKind::RomsDir);
                SettingsIntent::OpenPathPicker(
                    SettingsPickerKind::RomsDir,
                    string_of(self.download_dir.as_str()),
                )
            },
            SettingsRow::SaveDir => {
                self.path_picker = Some(SettingsPickerKind::SaveDir);
                SettingsIntent::OpenPathPicker(
                    SettingsPickerKind::SaveDir,
                    string_of(self.save_dir.as_str()),
                )
            },
            SettingsRow::BaseUrl => {
                self.editing = true;
                self.edit_buffer = string_of(self.base_url.as_str());
                self.edit_cursor = str_byte_len(self.edit_buffer.as_str());
                SettingsIntent::Nothing
            },
            _ => SettingsIntent::Nothing,
        }
    }

    /// Activate the selected row: confirmations for the destructive rows, the device list or a
    /// sync for the save rows (when the server supports them; else the reason is shown), extras
    /// toggles with a status line, the HTTPS toggle that also switches the URL's scheme, a
    /// directory picker for the directory rows, and URL editing (see `enter_edit_post`).
    pub fn enter_edit(&mut self) -> (intent: SettingsIntent)
        requires
            old(self).wf(),
        ensures
            final(self).wf(),
            Self::enter_edit_post(*old(self), *final(self), intent),
    {
        let row = self.selected_row();
        match row {
            SettingsRow::ResetConfiguration | SettingsRow::ClearCache => self.activate_confirm(row),
            SettingsRow::SyncDevice | SettingsRow::SyncNow => self.activate_sync(row),
            SettingsRow::ExtrasManual | SettingsRow::ExtrasCover | SettingsRow::ExtrasRelatedRoms => {
                self.activate_extras(row)
            },
            _ => self.activate_other(row),
        }
    }

    /// Show why save sync is unavailable.
    pub fn set_save_sync_unsupported_message(&mut self)
        ensures
            final(self).says(old(self).save_sync_compat.unsupported_message@, MessageTone::Warning),
            *final(self) == (SettingsScreen { message: final(self).message, ..*old(self) }),
    {
        self.message = message(
            string_of(self.save_sync_compat.unsupported_message.as_str()),
            MessageTone::Warning,
        );
    }

    /// Whether the server supports save sync.
    pub fn save_sync_supported(&self) -> (b: bool)
        ensures
            b == self.save_sync_compat.supported,
    {
        self.save_sync_compat.supported
    }

    /// Finish editing: the URL row takes the trimmed buffer. Always succeeds.
    pub fn save_edit(&mut self) -> (ok: bool)
        requires
            old(self).wf(),
        ensures
            ok,
            final(self).wf(),
            !old(self).editing ==> *final(self) == *old(self),
            old(self).editing ==> !final(self).editing && if old(self).spec_selected_row()
                == SettingsRow::BaseUrl {
                final(self).base_url@ == trim_spec(old(self).edit_buffer@) && *final(self) == (
                SettingsScreen { editing: false, base_url: final(self).base_url, ..*old(self) })
            } else {
                *final(self) == (SettingsScreen { editing: false, ..*old(self) })
            },
    {
        if !self.editing {
            return true;
        }
        if self.selected_row() == SettingsRow::BaseUrl {
            self.base_url = crate::text::trim(self.edit_buffer.as_str());
        }
        self.editing = false;
        true
    }

    /// Leave editing, confirmations and pickers, and drop the status line.
    pub fn cancel_edit(&mut self)
        ensures
            *final(self) == (SettingsScreen {
                editing: false,
                confirm: None,
                path_picker: None,
                console_path_platform: None,
                console_picker_open: false,
                active_console_kind: None,
                message: None,
                ..*old(self)
            }),
    {
        self.editing = false;
        self.confirm = None;
        self.path_picker = None;
        self.console_path_platform = None;
        self.console_picker_open = false;
        self.active_console_kind = None;
        self.message = None;
    }

    /// Type into the URL field at the cursor (which must start a character).
    pub fn add_char(&mut self, c: char)
        requires
            old(self).editing ==> old(self).edit_cursor <= byte_len(old(self).edit_buffer@)
                && on_char_boundary(old(self).edit_buffer@, old(self).edit_cursor as int)
                && old(self).edit_cursor < usize::MAX,
        ensures
            !old(self).editing ==> *final(self) == *old(self),
            old(self).editing ==> ({
                let k = chars_before(old(self).edit_buffer@, old(self).edit_cursor as int);
                &&& final(self).edit_buffer@ == old(self).edit_buffer@.take(k) + seq![c]
                    + old(self).edit_buffer@.skip(k)
                &&& final(self).edit_cursor == old(self).edit_cursor + 1
                &&& *final(self) == (SettingsScreen {
                    edit_buffer: final(self).edit_buffer,
                    edit_cursor: final(self).edit_cursor,
                    ..*old(self)
                })
            }),
    {
        if self.editing {
            string_insert(&mut self.edit_buffer, self.edit_cursor, c);
            self.edit_cursor = self.edit_cursor + 1;
        }
    }

    /// Delete the character before the cursor in the URL field (it must start at
    /// `edit_cursor - 1`).
    pub fn delete_char(&mut self)
        requires
            old(self).editing && old(self).edit_cursor > 0 ==> old(self).edit_cursor - 1
                < byte_len(old(self).edit_buffer@) && on_char_boundary(
                old(self).edit_buffer@,
                old(self).edit_cursor - 1,
            ),
        ensures
            !(old(self).editing && old(self).edit_cursor > 0) ==> *final(self) == *old(self),
            old(self).editing && old(self).edit_cursor > 0 ==> ({
                &&& final(self).edit_buffer@ == old(self).edit_buffer@.remove(
                    chars_before(old(self).edit_buffer@, old(self).edit_cursor - 1),
                )
                &&& final(self).edit_cursor == old(self).edit_cursor - 1
                &&& *final(self) == (SettingsScreen {
                    edit_buffer: final(self).edit_buffer,
                    edit_cursor: final(self).edit_cursor,
                    ..*old(self)
                })
            }),
    {
        if self.editing && self.edit_cursor > 0 {
            string_remove(&mut self.edit_buffer, self.edit_cursor - 1);
            self.edit_cursor = self.edit_cursor - 1;
        }
    }

    /// Cursor one byte left while editing.
    pub fn move_cursor_left(&mut self)
        ensures
            *final(self) == (SettingsScreen {
                edit_cursor: if old(self).editing && old(self).edit_cursor > 0 {
                    (old(self).edit_cursor - 1) as usize
                } else {
                    old(self).edit_cursor
                },
                ..*old(self)
            }),
    {
        if self.editing && self.edit_cursor > 0 {
            self.edit_cursor = self.edit_cursor - 1;
        }
    }

    /// Cursor one byte right while editing, up to the end of the buffer.
    pub fn move_cursor_right(&mut self)
        ensures
            *final(self) == (SettingsScreen {
                edit_cursor: if old(self).editing && old(self).edit_cursor < byte_len(
                    old(self).edit_buffer@,
                ) {
                    (old(self).edit_cursor + 1) as usize
                } else {
                    old(self).edit_cursor
                },
                ..*old(self)
            }),
    {
        if self.editing && self.edit_cursor < str_byte_len(self.edit_buffer.as_str()) {
            self.edit_cursor = self.edit_cursor + 1;
        }
    }
}

impl SettingsScreen {
    /// Open the per-console directory list for `kind`; its platforms are loading.
    pub fn open_console_picker(&mut self, kind: ConsolePathKind)
        ensures
            final(self).console_platforms@.len() == 0,
            *final(self) == (SettingsScreen {
                console_selected_index: 0,
                console_picker_open: true,
                active_console_kind: Some(kind),
                console_path_platform: None,
                console_picker_loading: true,
                console_picker_error: None,
                console_platforms: final(self).console_platforms,
                ..*old(self)
            }),
    {
        self.console_selected_index = 0;
        self.console_picker_open = true;
        self.active_console_kind = Some(kind);
        self.console_path_platform = None;
        self.console_picker_loading = true;
        self.console_picker_error = None;
        self.console_platforms = Vec::new();
    }

    /// The platforms arrived: loading ends and the selection stays within the list.
    pub fn set_console_platforms(&mut self, platforms: Vec<Platform>)
        ensures
            *final(self) == (SettingsScreen {
                console_platforms: platforms,
                console_picker_loading: false,
                console_picker_error: None,
                console_selected_index: if platforms@.len() == 0 {
                    0
                } else if old(self).console_selected_index < platforms@.len() - 1 {
                    old(self).console_selected_index
                } else {
                    (platforms@.len() - 1) as usize
                },
                ..*old(self)
            }),
    {
        let n = platforms.len();
        let last = if n == 0 {
            0
        } else {
            n - 1
        };
        self.console_platforms = platforms;
        self.console_picker_loading = false;
        self.console_picker_error = None;
        if self.console_selected_index > last {
            self.console_selected_index = last;
        }
    }

    /// Loading the platforms failed.
    pub fn set_console_platform_error(&mut self, error: String)
        ensures
            *final(self) == (SettingsScreen {
                console_picker_loading: false,
                console_picker_error: Some(error),
                ..*old(self)
            }),
    {
        self.console_picker_loading = false;
        self.console_picker_error = Some(error);
    }

    /// Forget the custom directory of a platform (for the open kind).
    pub fn clear_console_path(&mut self, platform_id: u64)
        ensures
            match old(self).active_console_kind {
                None => *final(self) == *old(self),
                Some(ConsolePathKind::Roms) => {
                    &&& final(self).rom_platform_dirs@ == old(self).rom_platform_dirs@.remove(platform_id)
                    &&& final(self).says("Custom path cleared (press S to save)"@, MessageTone::Success)
                    &&& *final(self) == (SettingsScreen {
                        rom_platform_dirs: final(self).rom_platform_dirs,
                        message: final(self).message,
                        ..*old(self)
                    })
                },
                Some(ConsolePathKind::Saves) => {
                    &&& final(self).save_platform_dirs@ == old(self).save_platform_dirs@.remove(platform_id)
                    &&& final(self).says("Custom path cleared (press S to save)"@, MessageTone::Success)
                    &&& *final(self) == (SettingsScreen {
                        save_platform_dirs: final(self).save_platform_dirs,
                        message: final(self).message,
                        ..*old(self)
                    })
                },
            },
    {
        match self.active_console_kind {
            None => {
                return ;
            },
            Some(ConsolePathKind::Roms) => {
                self.rom_platform_dirs.remove(&platform_id);
            },
            Some(ConsolePathKind::Saves) => {
                self.save_platform_dirs.remove(&platform_id);
            },
        }
        self.message = message(
            string_of("Custom path cleared (press S to save)"),
            MessageTone::Success,
        );
    }

    /// Set the custom directory of a platform (for the open kind) and close its picker.
    pub fn confirm_console_path(&mut self, platform_id: u64, path: String)
        ensures
            match old(self).active_console_kind {
                None => *final(self) == *old(self),
                Some(ConsolePathKind::Roms) => {
                    &&& final(self).rom_platform_dirs@ == old(self).rom_platform_dirs@.insert(platform_id, path)
                    &&& final(self).says("Custom console path updated (press S to save)"@, MessageTone::Success)
                    &&& *final(self) == (SettingsScreen {
                        rom_platform_dirs: final(self).rom_platform_dirs,
                        console_path_platform: None,
                        message: final(self).message,
                        ..*old(self)
                    })
                },
                Some(ConsolePathKind::Saves) => {
                    &&& final(self).save_platform_dirs@ == old(self).save_platform_dirs@.insert(platform_id, path)
                    &&& final(self).says("Custom save path updated (press S to save)"@, MessageTone::Success)
                    &&& *final(self) == (SettingsScreen {
                        save_platform_dirs: final(self).save_platform_dirs,
                        console_path_platform: None,
                        message: final(self).message,
                        ..*old(self)
                    })
                },
            },
    {
        match self.active_console_kind {
            None => {},
            Some(ConsolePathKind::Roms) => {
                self.rom_platform_dirs.insert(platform_id, path);
                self.console_path_platform = None;
                self.message = message(
                    string_of("Custom console path updated (press S to save)"),
                    MessageTone::Success,
                );
            },
            Some(ConsolePathKind::Saves) => {
                self.save_platform_dirs.insert(platform_id, path);
                self.console_path_platform = None;
                self.message = message(
                    string_of("Custom save path updated (press S to save)"),
                    MessageTone::Success,
                );
            },
        }
    }

    /// Next platform in the console list (stopping at the last).
    pub fn console_next(&mut self)
        requires
            old(self).console_selected_index < usize::MAX,
        ensures
            *final(self) == (SettingsScreen {
                console_selected_index: if old(self).console_platforms@.len() == 0 {
                    old(self).console_selected_index
                } else if old(self).console_selected_index + 1 < old(self).console_platforms@.len()
                    - 1 {
                    (old(self).console_selected_index + 1) as usize
                } else {
                    (old(self).console_platforms@.len() - 1) as usize
                },
                ..*old(self)
            }),
    {
        let n = self.console_platforms.len();
        if n > 0 {
            let next = self.console_selected_index + 1;
            self.console_selected_index = if next < n - 1 {
                next
            } else {
                n - 1
            };
        }
    }

    /// Previous platform in the console list (stopping at the first).
    pub fn console_previous(&mut self)
        ensures
            *final(self) == (SettingsScreen {
                console_selected_index: if old(self).console_selected_index > 0 {
                    (old(self).console_selected_index - 1) as usize
                } else {
                    0
                },
                ..*old(self)
            }),
    {
        if self.console_selected_index > 0 {
            self.console_selected_index = self.console_selected_index - 1;
        }
    }

    /// The device list arrived: loading ends; the configured device is selected when listed.
    pub fn set_devices(&mut self, devices: Vec<SyncDevice>)
        ensures
            ({
                let n = devices@.len();
                let pos = match old(self).sync_device_id {
                    Some(id) => first_device_with(devices@, id@),
                    None => 0,
                };
                *final(self) == (SettingsScreen {
                    devices: devices,
                    device_picker_loading: false,
                    device_picker_error: None,
                    device_selected_index: if n == 0 {
                        0
                    } else if pos < n - 1 {
                        pos
                    } else {
                        (n - 1) as usize
                    },
                    ..*old(self)
                })
            }),
    {
        let mut pos: usize = 0;
        match &self.sync_device_id {
            Some(id) => {
                let mut i: usize = 0;
                let mut found = false;
                while i < devices.len() && !found
                    invariant
                        i <= devices@.len(),
                        !found ==> pos == 0,
                        !found ==> first_device_with(devices@, id@) == first_device_from(
                            devices@,
                            id@,
                            i as int,
                        ),
                        found ==> pos == first_device_with(devices@, id@),
                    decreases devices@.len() - i,
                {
                    if str_eq(devices[i].id.as_str(), id.as_str()) {
                        pos = i;
                        found = true;
                    }
                    i += 1;
                }
            },
            None => {},
        }
        let n = devices.len();
        let last = if n == 0 {
            0
        } else {
            n - 1
        };
        self.devices = devices;
        self.device_picker_loading = false;
        self.device_picker_error = None;
        self.device_selected_index = if pos < last {
            pos
        } else {
            last
        };
    }

    /// Loading the devices failed.
    pub fn set_device_error(&mut self, error: String)
        ensures
            *final(self) == (SettingsScreen {
                device_picker_loading: false,
                device_picker_error: Some(error),
                ..*old(self)
            }),
    {
        self.device_picker_loading = false;
        self.device_picker_error = Some(error);
    }

    /// Next device (stopping at the last).
    pub fn device_next(&mut self)
        requires
            old(self).device_selected_index < usize::MAX,
        ensures
            *final(self) == (SettingsScreen {
                device_selected_index: if old(self).devices@.len() == 0 {
                    old(self).device_selected_index
                } else if old(self).device_selected_index + 1 < old(self).devices@.len() - 1 {
                    (old(self).device_selected_index + 1) as usize
                } else {
                    (old(self).devices@.len() - 1) as usize
                },
                ..*old(self)
            }),
    {
        let n = self.devices.len();
        if n > 0 {
            let next = self.device_selected_index + 1;
            self.device_selected_index = if next < n - 1 {
                next
            } else {
                n - 1
            };
        }
    }

    /// Previous device (stopping at the first).
    pub fn device_previous(&mut self)
        ensures
            *final(self) == (SettingsScreen {
                device_selected_index: if old(self).device_selected_index > 0 {
                    (old(self).device_selected_index - 1) as usize
                } else {
                    0
                },
                ..*old(self)
            }),
    {
        if self.device_selected_index > 0 {
            self.device_selected_index = self.device_selected_index - 1;
        }
    }

    /// Use the selected device for sync and close the list.
    pub fn confirm_device(&mut self)
        ensures
            if old(self).device_selected_index < old(self).devices@.len() {
                &&& final(self).sync_device_id matches Some(id) && id@ == old(
                    self,
                ).devices@[old(self).device_selected_index as int].id@
                &&& final(self).says("Sync device updated (press S to save)"@, MessageTone::Success)
                &&& *final(self) == (SettingsScreen {
                    sync_device_id: final(self).sync_device_id,
                    device_picker_open: false,
                    message: final(self).message,
                    ..*old(self)
                })
            } else {
                *final(self) == *old(self)
            },
    {
        if self.device_selected_index < self.devices.len() {
            let id = string_of(self.devices[self.device_selected_index].id.as_str());
            self.sync_device_id = Some(id);
            self.device_picker_open = false;
            self.message = message(
                string_of("Sync device updated (press S to save)"),
                MessageTone::Success,
            );
        }
    }

    /// The sync rows are shown dimmed when the server lacks save sync.
    pub fn row_dimmed(&self, row: SettingsRow) -> (b: bool)
        ensures
            b == ((row == SettingsRow::SyncDevice || row == SettingsRow::SyncNow)
                && !self.save_sync_compat.supported),
    {
        (row == SettingsRow::SyncDevice || row == SettingsRow::SyncNow)
            && !self.save_sync_compat.supported
    }

    /// The text of a row (the sync rows get a note when the server lacks save sync).
    pub open spec fn spec_row_label(&self, row: SettingsRow) -> Seq<char> {
        let label = match row {
            SettingsRow::BaseUrl => "Base URL:     "@ + if self.editing && self.spec_selected_row()
                == SettingsRow::BaseUrl {
                self.edit_buffer@
            } else {
                self.base_url@
            },
            SettingsRow::RomsDir => "Roms Dir:     "@ + self.download_dir@,
            SettingsRow::ConsolePaths => "Console paths: "@ + decimal(
                self.rom_platform_dirs@.dom().len(),
            ) + " custom · Enter to edit"@,
            SettingsRow::SaveConsolePaths => "Save console paths: "@ + decimal(
                self.save_platform_dirs@.dom().len(),
            ) + " custom · Enter to edit"@,
            SettingsRow::UseHttps => "Use HTTPS:    "@ + check_box(self.use_https),
            SettingsRow::SaveDir => "Save Dir:     "@ + self.save_dir@,
            SettingsRow::SyncDevice => "Sync Device:  "@ + match self.sync_device_id {
                Some(id) => id@,
                None => "(not selected)"@,
            },
            SettingsRow::SyncNow => "Sync Saves Now"@,
            SettingsRow::ExtrasRelatedRoms => "Incl. updates/DLC (picker default): "@ + check_box(
                self.extras_include_related_roms,
            ),
            SettingsRow::ExtrasCover => "Incl. cover (picker default):       "@ + check_box(
                self.extras_include_cover,
            ),
            SettingsRow::ExtrasManual => "Incl. manual (picker default):      "@ + check_box(
                self.extras_include_manual,
            ),
            SettingsRow::Auth => "Auth:         "@ + self.auth_status@ + " (Enter to change)"@,
            SettingsRow::ClearCache => "Clear Cache (Remove cached ROM data)"@,
            SettingsRow::ResetConfiguration => "Reset Configuration (Delete settings from disk & keyring)"@,
        };
        if (row == SettingsRow::SyncDevice || row == SettingsRow::SyncNow)
            && !self.save_sync_compat.supported {
            label + " (requires newer RomM server)"@
        } else {
            label
        }
    }

    /// The text of a row (see `spec_row_label`).
    pub fn row_label(&self, row: SettingsRow) -> (s: String)
        requires
            self.wf(),
        ensures
            s@ == self.spec_row_label(row),
    {
        let label = match row {
            SettingsRow::BaseUrl => {
                if self.editing && self.selected_row() == SettingsRow::BaseUrl {
                    concat("Base URL:     ", self.edit_buffer.as_str())
                } else {
                    concat("Base URL:     ", self.base_url.as_str())
                }
            },
            SettingsRow::RomsDir => concat("Roms Dir:     ", self.download_dir.as_str()),
            SettingsRow::ConsolePaths => {
                let n = crate::text::u64_to_decimal(self.rom_platform_dirs.len() as u64);
                let a = concat("Console paths: ", n.as_str());
                concat(a.as_str(), " custom · Enter to edit")
            },
            SettingsRow::SaveConsolePaths => {
                let n = crate::text::u64_to_decimal(self.save_platform_dirs.len() as u64);
                let a = concat("Save console paths: ", n.as_str());
                concat(a.as_str(), " custom · Enter to edit")
            },
            SettingsRow::UseHttps => concat("Use HTTPS:    ", check_box_exec(self.use_https)),
            SettingsRow::SaveDir => concat("Save Dir:     ", self.save_dir.as_str()),
            SettingsRow::SyncDevice => match &self.sync_device_id {
                Some(id) => concat("Sync Device:  ", id.as_str()),
                None => concat("Sync Device:  ", "(not selected)"),
            },
            SettingsRow::SyncNow => string_of("Sync Saves Now"),
            SettingsRow::ExtrasRelatedRoms => concat(
                "Incl. updates/DLC (picker default): ",
                check_box_exec(self.extras_include_related_roms),
            ),
            SettingsRow::ExtrasCover => concat(
                "Incl. cover (picker default):       ",
                check_box_exec(self.extras_include_cover),
            ),
            SettingsRow::ExtrasManual => concat(
                "Incl. manual (picker default):      ",
                check_box_exec(self.extras_include_manual),
            ),
            SettingsRow::Auth => {
                let a = concat("Auth:         ", self.auth_status.as_str());
                concat(a.as_str(), " (Enter to change)")
            },
            SettingsRow::ClearCache => string_of("Clear Cache (Remove cached ROM data)"),
            SettingsRow::ResetConfiguration => string_of(
                "Reset Configuration (Delete settings from disk & keyring)",
            ),
        };
        if self.row_dimmed(row) {
            concat(label.as_str(), " (requires newer RomM server)")
        } else {
            label
        }
    }
}

/// Position of the first device with id `id` at or after `i` (0 when there is none).
pub open spec fn first_device_from(ds: Seq<SyncDevice>, id: Seq<char>, i: int) -> usize
    decreases ds.len() - i,
{
    if i < 0 || i >= ds.len() {
        0
    } else if ds[i].id@ == id {
        i as usize
    } else {
        first_device_from(ds, id, i + 1)
    }
}

/// Position of the first device with id `id` (0 when there is none).
pub open spec fn first_device_with(ds: Seq<SyncDevice>, id: Seq<char>) -> usize {
    first_device_from(ds, id, 0)
}

/// Switching to the next tab and back returns to the same tab with the same selected row:
/// each tab remembers its row.
pub proof fn lemma_tab_round_trip(o: SettingsScreen, m: SettingsScreen, n: SettingsScreen)
    requires
        o.wf(),
        !o.editing,
        o.confirm is None,
        SettingsScreen::tab_step_post(o, m, 1),
        SettingsScreen::tab_step_post(m, n, SETTINGS_TAB_COUNT - 1),
    ensures
        n.selected_tab == o.selected_tab,
        n.row_index() == o.row_index(),
        n.spec_selected_row() == o.spec_selected_row(),
{
    assert(n.selected_tab == o.selected_tab) by {
        match o.selected_tab {
            SettingsTab::Connection => {},
            SettingsTab::Roms => {},
            SettingsTab::Saves => {},
            SettingsTab::Extras => {},
            SettingsTab::AuthMaintenance => {},
        }
    }
    assert(m.selected_tab != o.selected_tab) by {
        match o.selected_tab {
            SettingsTab::Connection => {},
            SettingsTab::Roms => {},
            SettingsTab::Saves => {},
            SettingsTab::Extras => {},
            SettingsTab::AuthMaintenance => {},
        }
    }
    let i = o.selected_tab.spec_index() as int;
    assert(m.selected_indices@[i] == o.selected_indices@[i]);
}


/// Moving one row down and then one row up in a tab returns to the selected row.
pub proof fn lemma_row_round_trip(o: SettingsScreen, m: SettingsScreen, n: SettingsScreen)
    requires
        o.wf(),
        SettingsScreen::row_step_post(o, m, true),
        SettingsScreen::row_step_post(m, n, false),
    ensures
        n.row_index() == o.row_index(),
        n.spec_selected_row() == o.spec_selected_row(),
        n == (SettingsScreen { selected_indices: n.selected_indices, ..o }),
{
    if !o.editing && o.confirm is None {
        let len = o.rows().len() as int;
        assert(m.rows() == o.rows());
        assert(0 <= o.row_index() < len);
        if o.row_index() + 1 < len {
            assert((o.row_index() + 1) % len == o.row_index() + 1) by (nonlinear_arith)
                requires
                    0 <= o.row_index() + 1 < len,
            ;
        } else {
            assert((o.row_index() + 1) % len == 0) by (nonlinear_arith)
                requires
                    o.row_index() + 1 == len,
                    len > 0,
            ;
        }
    }
}

/// While editing the URL, typing a one-byte character and then pressing Backspace gives the
/// text and the cursor back (the cursor counts bytes, so after a wider character it would not
/// stand on a character boundary).
pub proof fn lemma_url_type_then_backspace(text: Seq<char>, cursor: usize, c: char)
    requires
        cursor <= byte_len(text),
        on_char_boundary(text, cursor as int),
        char_width(c) == 1,
    ensures
        ({
            let k = chars_before(text, cursor as int);
            let t1 = text.take(k) + seq![c] + text.skip(k);
            &&& cursor + 1 - 1 < byte_len(t1)
            &&& on_char_boundary(t1, cursor as int)
            &&& t1.remove(chars_before(t1, cursor as int)) == text
        }),
{
    let k = chars_before(text, cursor as int);
    crate::text::lemma_boundary_prefix(text, cursor as int);
    let t1 = text.take(k) + seq![c] + text.skip(k);
    crate::text::lemma_insert_prefix(text, k, c);
    crate::text::lemma_prefix_boundary(t1, k);
    crate::text::lemma_prefix_boundary(t1, k + 1);
    crate::text::lemma_prefix_boundary(t1, t1.len() as int);
    assert(t1.take(t1.len() as int) =~= t1);
    assert(t1.remove(k) =~= text);
}


/// The confirmation question for `c`.
pub open spec fn confirm_prompt_text(c: SettingsConfirm) -> Seq<char> {
    match c {
        SettingsConfirm::Reset => "Are you sure you want to delete all settings? (Enter: Yes, Esc: Cancel)"@,
        SettingsConfirm::ClearCache => "Are you sure you want to clear the ROM cache? (Enter: Yes, Esc: Cancel)"@,
    }
}

/// The question asked before a destructive action.
pub fn confirm_prompt(c: SettingsConfirm) -> (t: &'static str)
    ensures
        t@ == match c {
            SettingsConfirm::Reset => "Are you sure you want to delete all settings? (Enter: Yes, Esc: Cancel)"@,
            SettingsConfirm::ClearCache => "Are you sure you want to clear the ROM cache? (Enter: Yes, Esc: Cancel)"@,
        },
{
    match c {
        SettingsConfirm::Reset => "Are you sure you want to delete all settings? (Enter: Yes, Esc: Cancel)",
        SettingsConfirm::ClearCache => "Are you sure you want to clear the ROM cache? (Enter: Yes, Esc: Cancel)",
    }
}

/// Shown under the rows while the URL is being edited.
pub const SETTINGS_EDITING_TEXT: &'static str = "Editing... Enter: save   Esc: cancel";

/// What the line under the rows shows.
pub enum SettingsStatus {
    /// A confirmation question (shown as an alert).
    Confirm(&'static str),
    /// The status message and its tone.
    Message(String, MessageTone),
    /// The editing hint.
    Editing(&'static str),
    /// Nothing.
    Blank,
}

/// The device picker pane: the device rows, or what stands in their place.
pub enum DevicePane {
    Loading(&'static str),
    Failed(String),
    Rows(Vec<String>),
}

/// Text of a device row: its name (or `(unnamed)`), its ID and its sync mode.
pub open spec fn device_row(d: SyncDevice) -> Seq<char> {
    (match d.name {
        Some(n) => n@,
        None => "(unnamed)"@,
    }) + "  ["@ + d.id@ + "]  mode="@ + d.sync_mode@
}

impl SettingsScreen {
    /// The line under the rows: a pending confirmation first, then the status message, then
    /// the editing hint.
    pub fn status_line(&self) -> (r: SettingsStatus)
        ensures
            match self.confirm {
                Some(c) => r matches SettingsStatus::Confirm(t) && t@ == confirm_prompt_text(c),
                None => match self.message {
                    Some((m, tone)) => r matches SettingsStatus::Message(t, k) && t@ == m@ && k
                        == tone,
                    None => if self.editing {
                        r matches SettingsStatus::Editing(t) && t@ == SETTINGS_EDITING_TEXT@
                    } else {
                        r is Blank
                    },
                },
            },
    {
        match self.confirm {
            Some(c) => SettingsStatus::Confirm(confirm_prompt(c)),
            None => match &self.message {
                Some((m, tone)) => SettingsStatus::Message(string_of(m.as_str()), *tone),
                None => if self.editing {
                    SettingsStatus::Editing(SETTINGS_EDITING_TEXT)
                } else {
                    SettingsStatus::Blank
                },
            },
        }
    }

    /// Key help in the footer.
    pub fn footer_help(&self) -> (t: &'static str)
        ensures
            t@ == if self.confirm is Some {
                "Enter: confirm   Esc: cancel"@
            } else if self.editing {
                "Backspace: delete   Arrows: move cursor   Enter: save   Esc: cancel"@
            } else {
                "Tab/←/→: tabs   ↑/↓: select   Enter: edit/toggle   S: save to disk   Esc: back"@
            },
    {
        if self.confirm.is_some() {
            "Enter: confirm   Esc: cancel"
        } else if self.editing {
            "Backspace: delete   Arrows: move cursor   Enter: save   Esc: cancel"
        } else {
            "Tab/←/→: tabs   ↑/↓: select   Enter: edit/toggle   S: save to disk   Esc: back"
        }
    }

    /// The version line above the pickers: `romm-cli: v<version> | RomM server: <server>`.
    pub fn version_line(&self) -> (t: String)
        ensures
            t@ == "romm-cli: v"@ + self.version@ + " | RomM server: "@ + self.server_version@,
    {
        let a = concat("romm-cli: v", self.version.as_str());
        let b = concat(a.as_str(), " | RomM server: ");
        concat(b.as_str(), self.server_version.as_str())
    }

    /// The device picker pane: loading, the error, or one row per device.
    pub fn device_pane(&self) -> (p: DevicePane)
        ensures
            if self.device_picker_loading {
                p matches DevicePane::Loading(t) && t@ == "Loading devices..."@
            } else if self.device_picker_error is Some {
                p matches DevicePane::Failed(t) && t@ == "Could not load devices: "@
                    + self.device_picker_error->0@
            } else {
                p matches DevicePane::Rows(v) && v@.len() == self.devices@.len() && forall|i: int|
                    0 <= i < v@.len() ==> #[trigger] v@[i]@ == device_row(self.devices@[i])
            },
    {
        if self.device_picker_loading {
            return DevicePane::Loading("Loading devices...");
        }
        match &self.device_picker_error {
            Some(e) => DevicePane::Failed(concat("Could not load devices: ", e.as_str())),
            None => {
                let mut v: Vec<String> = Vec::new();
                let mut i: usize = 0;
                while i < self.devices.len()
                    invariant
                        i <= self.devices@.len(),
                        v@.len() == i,
                        forall|k: int| 0 <= k < i ==> #[trigger] v@[k]@ == device_row(self.devices@[k]),
                    decreases self.devices@.len() - i,
                {
                    let d = &self.devices[i];
                    let name = match &d.name {
                        Some(n) => string_of(n.as_str()),
                        None => string_of("(unnamed)"),
                    };
                    let a = concat(name.as_str(), "  [");
                    let b = concat(a.as_str(), d.id.as_str());
                    let c = concat(b.as_str(), "]  mode=");
                    v.push(concat(c.as_str(), d.sync_mode.as_str()));
                    i += 1;
                }
                DevicePane::Rows(v)
            },
        }
    }
}

/// Key help under the device picker.
pub const DEVICE_PICKER_HELP: &'static str = "Enter: choose   Esc: cancel   ↑/↓: select";

/// Text above the device list.
pub const DEVICE_PICKER_INFO: &'static str = "Select the RomM sync device used for manual push-pull.";

/// Key help under the console picker.
pub const CONSOLE_PICKER_HELP: &'static str = "Enter: set path   Del: clear custom   Esc: back   ↑/↓: select";

/// Text above the console list for `kind`.
pub fn console_picker_subtitle(kind: ConsolePathKind) -> (t: &'static str)
    ensures
        t@ == match kind {
            ConsolePathKind::Roms => "Set a custom ROM path for consoles on other drives."@,
            ConsolePathKind::Saves => "Set a custom save path for consoles on other drives."@,
        },
{
    match kind {
        ConsolePathKind::Roms => "Set a custom ROM path for consoles on other drives.",
        ConsolePathKind::Saves => "Set a custom save path for consoles on other drives.",
    }
}

/// Key help under the directory pickers of the settings.
pub const SETTINGS_PICKER_HELP: &'static str = "Esc: cancel   Ctrl+Enter: apply typed path (creates folders)   Tab: path/list";

/// Title of the directory picker for `kind`.
pub fn picker_title(kind: SettingsPickerKind) -> (t: &'static str)
    ensures
        t@ == match kind {
            SettingsPickerKind::RomsDir => "Choose ROMs directory"@,
            SettingsPickerKind::SaveDir => "Choose save directory"@,
        },
{
    match kind {
        SettingsPickerKind::RomsDir => "Choose ROMs directory",
        SettingsPickerKind::SaveDir => "Choose save directory",
    }
}

} // verus!
