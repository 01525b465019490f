//! First-run setup: the steps from server URL to authentication, the text fields and what a
//! key or a paste does to them, and the configuration that the answers make.
//!
//! The directory picker, the server round trips, the keyring and the terminal belong to the
//! front end; it hands this state the results (whether the URL names a server origin, the
//! validated download directory, a secret read from the keyring).

use vstd::prelude::*;
use crate::keys::{KeyCode, KeyPress};
use crate::settings::MessageTone;
use crate::text::{
    byte_len, chars_before, is_blank, on_char_boundary, str_byte_len, string_insert,
    string_insert_str, string_of, string_pop, string_push, string_remove, trim, trim_spec,
};

verus! {

/// How the wizard authenticates.
#[derive(Debug, Clone, Copy, PartialEq, Eq, Structural)]
pub enum AuthKind {
    Pairing,
    Basic,
    Bearer,
    ApiKey,
}

/// The wizard's steps.
#[derive(Debug, Clone, Copy, PartialEq, Eq, Structural)]
pub enum Step {
    Url,
    Https,
    Download,
    AuthMenu,
    BasicUser,
    BasicPass,
    Bearer,
    ApiHeader,
    ApiKey,
    PairingCode,
    Summary,
}

/// What the front end does after a key.
#[derive(Debug, Clone, Copy, PartialEq, Eq, Structural)]
pub enum WizardKeyOutcome {
    /// The wizard handled the key (or ignored it).
    Handled,
    /// Esc: leave the wizard.
    Cancel,
    /// The directory step: the key belongs to the directory picker.
    ToDownloadPicker,
}

/// Credentials as the configuration stores them.
#[derive(Debug, Clone)]
pub enum AuthConfig {
    Basic { username: String, password: String },
    Bearer { token: String },
    ApiKey { header: String, key: String },
}

/// What the wizard saves: server origin, ROMs directory, scheme and credentials.
#[derive(Debug, Clone)]
pub struct WizardConfig {
    pub base_url: String,
    pub download_dir: String,
    pub use_https: bool,
    pub auth: Option<AuthConfig>,
}

/// A pairing-code exchange to make: the server, the ROMs directory and the trimmed code.
#[derive(Debug, Clone)]
pub struct PairingRequest {
    pub base_url: String,
    pub download_dir: String,
    pub code: String,
}

/// Interactive setup state.
pub struct SetupWizard {
    pub step: Step,
    pub auth_kind: AuthKind,
    pub auth_menu_selected: usize,
    pub url: String,
    pub url_cursor: usize,
    /// The ROMs directory as typed or picked.
    pub download_path: String,
    pub username: String,
    pub user_cursor: usize,
    pub password: String,
    pub bearer_token: String,
    pub bearer_cursor: usize,
    pub api_header: String,
    pub header_cursor: usize,
    pub api_key: String,
    pub api_key_cursor: usize,
    pub pairing_code: String,
    pub pairing_cursor: usize,
    /// An empty field with this flag set means: take the secret from the OS keyring on save.
    pub reuse_keyring_password: bool,
    pub reuse_keyring_bearer: bool,
    pub reuse_keyring_api_key: bool,
    pub testing: bool,
    pub use_https: bool,
    pub error: Option<String>,
}

// ---------------------------------------------------------------------------
// Single-line text fields
// ---------------------------------------------------------------------------

/// A field and its byte cursor after `code` (character keys insert at the cursor, clamped to
/// the end; Backspace removes the character before it; Left and Right move it by one byte).
pub open spec fn edited(text: Seq<char>, cursor: usize, code: KeyCode) -> (Seq<char>, usize) {
    let len = byte_len(text);
    match code {
        KeyCode::Char(c) => {
            let pos = if cursor < len {
                cursor as int
            } else {
                len as int
            };
            let k = chars_before(text, pos);
            (text.take(k) + seq![c] + text.skip(k), (pos + 1) as usize)
        },
        KeyCode::Backspace => if cursor > 0 && cursor <= len {
            (text.remove(chars_before(text, cursor - 1)), (cursor - 1) as usize)
        } else {
            (text, cursor)
        },
        KeyCode::Left => if cursor > 0 {
            (text, (cursor - 1) as usize)
        } else {
            (text, cursor)
        },
        KeyCode::Right => if cursor < len {
            (text, (cursor + 1) as usize)
        } else {
            (text, cursor)
        },
        _ => (text, cursor),
    }
}

/// Keys that edit a field or move its cursor.
pub open spec fn is_edit_key(code: KeyCode) -> bool {
    code is Char || code is Backspace || code is Left || code is Right
}

/// The byte offsets that `code` touches start characters (`String` panics otherwise).
pub open spec fn edit_allowed(text: Seq<char>, cursor: usize, code: KeyCode) -> bool {
    let len = byte_len(text);
    match code {
        KeyCode::Char(_) => {
            let pos = if cursor < len {
                cursor as int
            } else {
                len as int
            };
            on_char_boundary(text, pos) && pos < usize::MAX
        },
        KeyCode::Backspace => cursor > 0 && cursor <= len ==> on_char_boundary(text, cursor - 1),
        _ => true,
    }
}

fn edit_field(text: &mut String, cursor: &mut usize, code: KeyCode)
    requires
        edit_allowed(old(text)@, *old(cursor), code),
    ensures
        (final(text)@, *final(cursor)) == edited(old(text)@, *old(cursor), code),
{
    let len = str_byte_len(text.as_str());
    match code {
        KeyCode::Char(c) => {
            let pos = if *cursor < len {
                *cursor
            } else {
                len
            };
            string_insert(text, pos, c);
            *cursor = pos + 1;
        },
        KeyCode::Backspace => {
            if *cursor > 0 && *cursor <= len {
                string_remove(text, *cursor - 1);
                *cursor = *cursor - 1;
            }
        },
        KeyCode::Left => {
            if *cursor > 0 {
                *cursor = *cursor - 1;
            }
        },
        KeyCode::Right => {
            if *cursor < len {
                *cursor = *cursor + 1;
            }
        },
        _ => {},
    }
}

// ---------------------------------------------------------------------------
// Steps
// ---------------------------------------------------------------------------

/// The authentication kind listed at position `i` of the menu (the last for `i >= 3`).
pub open spec fn kind_at(i: usize) -> AuthKind {
    if i == 0 {
        AuthKind::Pairing
    } else if i == 1 {
        AuthKind::Basic
    } else if i == 2 {
        AuthKind::Bearer
    } else {
        AuthKind::ApiKey
    }
}

/// The first step of an authentication kind.
pub open spec fn first_auth_step(k: AuthKind) -> Step {
    match k {
        AuthKind::Basic => Step::BasicUser,
        AuthKind::Bearer => Step::Bearer,
        AuthKind::ApiKey => Step::ApiHeader,
        AuthKind::Pairing => Step::PairingCode,
    }
}

/// The step after `s` for the steps that always move on the same way.
pub open spec fn next_step(s: Step) -> Step {
    match s {
        Step::Https => Step::Download,
        Step::BasicUser => Step::BasicPass,
        Step::BasicPass => Step::Summary,
        Step::Bearer => Step::Summary,
        Step::ApiHeader => Step::ApiKey,
        Step::ApiKey => Step::Summary,
        Step::PairingCode => Step::Summary,
        _ => s,
    }
}

/// Menu position to authentication kind.
pub fn auth_kind_from_index(i: usize) -> (k: AuthKind)
    ensures
        k == kind_at(i),
{
    if i == 0 {
        AuthKind::Pairing
    } else if i == 1 {
        AuthKind::Basic
    } else if i == 2 {
        AuthKind::Bearer
    } else {
        AuthKind::ApiKey
    }
}

/// The authentication menu, top to bottom.
pub fn auth_labels() -> (v: Vec<&'static str>)
    ensures
        v@.len() == 4,
        v@[0]@ == "Pair with Web UI (8-character code) (Recommended)"@,
        v@[1]@ == "Username + password"@,
        v@[2]@ == "API Token"@,
        v@[3]@ == "API key in custom header"@,
{
    let mut v: Vec<&'static str> = Vec::new();
    v.push("Pair with Web UI (8-character code) (Recommended)");
    v.push("Username + password");
    v.push("API Token");
    v.push("API key in custom header");
    v
}

impl SetupWizard {
    /// Enter on a step (`origin_ok`: the URL names a server origin): `o` before, `n` after.
    pub open spec fn advance_post(o: SetupWizard, n: SetupWizard, origin_ok: bool) -> bool {
        match o.step {
            Step::Url => if origin_ok {
                n == (SetupWizard { step: Step::Https, error: None, ..o })
            } else {
                &&& n.error matches Some(e) && e@ == "Enter a valid server URL"@
                &&& n == (SetupWizard { error: n.error, ..o })
            },
            Step::AuthMenu => {
                let k = kind_at(o.auth_menu_selected);
                n == (SetupWizard {
                    auth_kind: k,
                    step: first_auth_step(k),
                    pairing_cursor: if k == AuthKind::Pairing {
                        byte_len(o.pairing_code@) as usize
                    } else {
                        o.pairing_cursor
                    },
                    error: None,
                    ..o
                })
            },
            _ => n == (SetupWizard { step: next_step(o.step), error: None, ..o }),
        }
    }

    fn advance_from_auth_menu(&mut self)
        requires
            old(self).step == Step::AuthMenu,
            old(self).error is None,
        ensures
            Self::advance_post(*old(self), *final(self), true),
    {
        self.auth_kind = auth_kind_from_index(self.auth_menu_selected);
        match self.auth_kind {
            AuthKind::Basic => {
                self.step = Step::BasicUser;
            },
            AuthKind::Bearer => {
                self.step = Step::Bearer;
            },
            AuthKind::ApiKey => {
                self.step = Step::ApiHeader;
            },
            AuthKind::Pairing => {
                self.pairing_cursor = str_byte_len(self.pairing_code.as_str());
                self.step = Step::PairingCode;
            },
        }
    }

    /// Move on from the current step (Enter).
    pub fn advance_step(&mut self, origin_ok: bool)
        ensures
            Self::advance_post(*old(self), *final(self), origin_ok),
    {
        self.error = None;
        match self.step {
            Step::Url => {
                if !origin_ok {
                    self.error = Some(string_of("Enter a valid server URL"));
                } else {
                    self.step = Step::Https;
                }
            },
            Step::Https => {
                self.step = Step::Download;
            },
            Step::Download => {},
            Step::AuthMenu => self.advance_from_auth_menu(),
            Step::BasicUser => {
                self.step = Step::BasicPass;
            },
            Step::BasicPass => {
                self.step = Step::Summary;
            },
            Step::Bearer => {
                self.step = Step::Summary;
            },
            Step::ApiHeader => {
                self.step = Step::ApiKey;
            },
            Step::ApiKey => {
                self.step = Step::Summary;
            },
            Step::PairingCode => {
                self.step = Step::Summary;
            },
            Step::Summary => {},
        }
    }
}

impl SetupWizard {
    /// What a key does on the current step (no Esc, not while testing, not the directory step).
    pub open spec fn step_key_post(o: SetupWizard, n: SetupWizard, code: KeyCode, origin_ok: bool) -> bool {
        match o.step {
            Step::Url => if code is Enter {
                Self::advance_post(o, n, origin_ok)
            } else if is_edit_key(code) {
                &&& (n.url@, n.url_cursor) == edited(o.url@, o.url_cursor, code)
                &&& n == (SetupWizard { url: n.url, url_cursor: n.url_cursor, ..o })
            } else {
                n == o
            },
            Step::Https => if code is Enter {
                Self::advance_post(o, n, origin_ok)
            } else if code == KeyCode::Char(' ') {
                n == (SetupWizard { use_https: !o.use_https, ..o })
            } else {
                n == o
            },
            Step::AuthMenu => if (code is Up || code == KeyCode::Char('k')) && o.auth_menu_selected
                > 0 {
                n == (SetupWizard { auth_menu_selected: (o.auth_menu_selected - 1) as usize, ..o })
            } else if (code is Down || code == KeyCode::Char('j')) && o.auth_menu_selected < 3 {
                n == (SetupWizard { auth_menu_selected: (o.auth_menu_selected + 1) as usize, ..o })
            } else if code is Enter {
                Self::advance_post(o, n, origin_ok)
            } else {
                n == o
            },
            Step::BasicUser => if code is Tab {
                n == (SetupWizard { step: Step::BasicPass, ..o })
            } else if code is Enter {
                Self::advance_post(o, n, origin_ok)
            } else if is_edit_key(code) {
                &&& (n.username@, n.user_cursor) == edited(o.username@, o.user_cursor, code)
                &&& n == (SetupWizard { username: n.username, user_cursor: n.user_cursor, ..o })
            } else {
                n == o
            },
            Step::BasicPass => if code is Tab {
                n == (SetupWizard { step: Step::BasicUser, ..o })
            } else if code is Enter {
                Self::advance_post(o, n, origin_ok)
            } else if code is Char {
                &&& n.password@ == o.password@.push(code->Char_0)
                &&& n == (SetupWizard { password: n.password, reuse_keyring_password: false, ..o })
            } else if code is Backspace {
                &&& n.password@ == if o.password@.len() > 0 {
                    o.password@.drop_last()
                } else {
                    o.password@
                }
                &&& n == (SetupWizard { password: n.password, ..o })
            } else {
                n == o
            },
            Step::Bearer => if code is Enter {
                Self::advance_post(o, n, origin_ok)
            } else if is_edit_key(code) {
                &&& (n.bearer_token@, n.bearer_cursor) == edited(
                    o.bearer_token@,
                    o.bearer_cursor,
                    code,
                )
                &&& n == (SetupWizard {
                    bearer_token: n.bearer_token,
                    bearer_cursor: n.bearer_cursor,
                    reuse_keyring_bearer: if code is Char {
                        false
                    } else {
                        o.reuse_keyring_bearer
                    },
                    ..o
                })
            } else {
                n == o
            },
            Step::PairingCode => if code is Enter {
                Self::advance_post(o, n, origin_ok)
            } else if is_edit_key(code) {
                &&& (n.pairing_code@, n.pairing_cursor) == edited(
                    o.pairing_code@,
                    o.pairing_cursor,
                    code,
                )
                &&& n == (SetupWizard {
                    pairing_code: n.pairing_code,
                    pairing_cursor: n.pairing_cursor,
                    ..o
                })
            } else {
                n == o
            },
            Step::ApiHeader => if code is Tab {
                n == (SetupWizard { step: Step::ApiKey, ..o })
            } else if code is Enter {
                Self::advance_post(o, n, origin_ok)
            } else if is_edit_key(code) {
                &&& (n.api_header@, n.header_cursor) == edited(o.api_header@, o.header_cursor, code)
                &&& n == (SetupWizard {
                    api_header: n.api_header,
                    header_cursor: n.header_cursor,
                    ..o
                })
            } else {
                n == o
            },
            Step::ApiKey => if code is Tab {
                n == (SetupWizard { step: Step::ApiHeader, ..o })
            } else if code is Enter {
                Self::advance_post(o, n, origin_ok)
            } else if is_edit_key(code) {
                &&& (n.api_key@, n.api_key_cursor) == edited(o.api_key@, o.api_key_cursor, code)
                &&& n == (SetupWizard {
                    api_key: n.api_key,
                    api_key_cursor: n.api_key_cursor,
                    reuse_keyring_api_key: if code is Char {
                        false
                    } else {
                        o.reuse_keyring_api_key
                    },
                    ..o
                })
            } else {
                n == o
            },
            Step::Summary => if code is Enter {
                n == (SetupWizard { testing: true, error: None, ..o })
            } else {
                n == o
            },
            Step::Download => n == o,
        }
    }

    /// The text field that the current step edits accepts `code` (see `edit_allowed`).
    pub open spec fn step_key_allowed(&self, code: KeyCode) -> bool {
        match self.step {
            Step::Url => edit_allowed(self.url@, self.url_cursor, code),
            Step::BasicUser => edit_allowed(self.username@, self.user_cursor, code),
            Step::Bearer => edit_allowed(self.bearer_token@, self.bearer_cursor, code),
            Step::PairingCode => edit_allowed(self.pairing_code@, self.pairing_cursor, code),
            Step::ApiHeader => edit_allowed(self.api_header@, self.header_cursor, code),
            Step::ApiKey => edit_allowed(self.api_key@, self.api_key_cursor, code),
            _ => true,
        }
    }

    /// What `handle_key` does: `o` before, `n` after, `out` returned.
    pub open spec fn key_post(
        o: SetupWizard,
        n: SetupWizard,
        key: KeyPress,
        origin_ok: bool,
        out: WizardKeyOutcome,
    ) -> bool {
        if !key.is_press {
            n == o && out == WizardKeyOutcome::Handled
        } else if key.code == KeyCode::Esc {
            n == o && out == WizardKeyOutcome::Cancel
        } else if o.testing {
            n == o && out == WizardKeyOutcome::Handled
        } else if o.step == Step::Download {
            n == o && out == WizardKeyOutcome::ToDownloadPicker
        } else {
            out == WizardKeyOutcome::Handled && Self::step_key_post(o, n, key.code, origin_ok)
        }
    }

    fn key_text_step(&mut self, code: KeyCode, origin_ok: bool)
        requires
            old(self).step == Step::Url || old(self).step == Step::PairingCode || old(self).step
                == Step::Bearer,
            old(self).step_key_allowed(code),
        ensures
            Self::step_key_post(*old(self), *final(self), code, origin_ok),
    {
        if code == KeyCode::Enter {
            self.advance_step(origin_ok);
        } else if matches!(code, KeyCode::Char(_)) || code == KeyCode::Backspace || code == KeyCode::Left || code
            == KeyCode::Right {
            match self.step {
                Step::Url => edit_field(&mut self.url, &mut self.url_cursor, code),
                Step::PairingCode => edit_field(&mut self.pairing_code, &mut self.pairing_cursor, code),
                _ => {
                    if matches!(code, KeyCode::Char(_)) {
                        self.reuse_keyring_bearer = false;
                    }
                    edit_field(&mut self.bearer_token, &mut self.bearer_cursor, code);
                },
            }
        }
    }

    fn key_two_field_step(&mut self, code: KeyCode, origin_ok: bool)
        requires
            old(self).step == Step::BasicUser || old(self).step == Step::ApiHeader || old(self).step
                == Step::ApiKey,
            old(self).step_key_allowed(code),
        ensures
            Self::step_key_post(*old(self), *final(self), code, origin_ok),
    {
        if code == KeyCode::Tab {
            self.step = match self.step {
                Step::BasicUser => Step::BasicPass,
                Step::ApiHeader => Step::ApiKey,
                _ => Step::ApiHeader,
            };
        } else if code == KeyCode::Enter {
            self.advance_step(origin_ok);
        } else if matches!(code, KeyCode::Char(_)) || code == KeyCode::Backspace || code == KeyCode::Left || code
            == KeyCode::Right {
            match self.step {
                Step::BasicUser => edit_field(&mut self.username, &mut self.user_cursor, code),
                Step::ApiHeader => edit_field(&mut self.api_header, &mut self.header_cursor, code),
                _ => {
                    if matches!(code, KeyCode::Char(_)) {
                        self.reuse_keyring_api_key = false;
                    }
                    edit_field(&mut self.api_key, &mut self.api_key_cursor, code);
                },
            }
        }
    }

    fn key_menu_step(&mut self, code: KeyCode, origin_ok: bool)
        requires
            old(self).step == Step::Https || old(self).step == Step::AuthMenu || old(self).step
                == Step::BasicPass || old(self).step == Step::Summary,
        ensures
            Self::step_key_post(*old(self), *final(self), code, origin_ok),
    {
        match self.step {
            Step::Https => {
                if code == KeyCode::Enter {
                    self.advance_step(origin_ok);
                } else if code == KeyCode::Char(' ') {
                    self.use_https = !self.use_https;
                }
            },
            Step::AuthMenu => {
                if (code == KeyCode::Up || code == KeyCode::Char('k')) && self.auth_menu_selected
                    > 0 {
                    self.auth_menu_selected = self.auth_menu_selected - 1;
                } else if (code == KeyCode::Down || code == KeyCode::Char('j'))
                    && self.auth_menu_selected < 3 {
                    self.auth_menu_selected = self.auth_menu_selected + 1;
                } else if code == KeyCode::Enter {
                    self.advance_step(origin_ok);
                }
            },
            Step::BasicPass => {
                if code == KeyCode::Tab {
                    self.step = Step::BasicUser;
                } else if code == KeyCode::Enter {
                    self.advance_step(origin_ok);
                } else if let KeyCode::Char(c) = code {
                    self.reuse_keyring_password = false;
                    string_push(&mut self.password, c);
                } else if code == KeyCode::Backspace {
                    string_pop(&mut self.password);
                }
            },
            _ => {
                if code == KeyCode::Enter {
                    self.testing = true;
                    self.error = None;
                }
            },
        }
    }

    /// One key press. Esc asks to leave; while the connection test runs keys are ignored; on
    /// the directory step keys go to the directory picker. `origin_ok` says whether the URL
    /// field names a server origin (used when Enter leaves the URL step).
    pub fn handle_key(&mut self, key: &KeyPress, origin_ok: bool) -> (out: WizardKeyOutcome)
        requires
            key.is_press && key.code != KeyCode::Esc && !old(self).testing ==> old(
                self,
            ).step_key_allowed(key.code),
        ensures
            Self::key_post(*old(self), *final(self), *key, origin_ok, out),
    {
        if !key.is_press {
            return WizardKeyOutcome::Handled;
        }
        if key.code == KeyCode::Esc {
            return WizardKeyOutcome::Cancel;
        }
        if self.testing {
            return WizardKeyOutcome::Handled;
        }
        match self.step {
            Step::Download => {
                return WizardKeyOutcome::ToDownloadPicker;
            },
            Step::Url | Step::PairingCode | Step::Bearer => self.key_text_step(key.code, origin_ok),
            Step::BasicUser | Step::ApiHeader | Step::ApiKey => self.key_two_field_step(
                key.code,
                origin_ok,
            ),
            _ => self.key_menu_step(key.code, origin_ok),
        }
        WizardKeyOutcome::Handled
    }
}

// ---------------------------------------------------------------------------
// Paste
// ---------------------------------------------------------------------------

/// `s` without its line breaks (`'\n'` and `'\r'`).
pub open spec fn without_line_breaks(s: Seq<char>) -> Seq<char>
    decreases s.len(),
{
    if s.len() == 0 {
        seq![]
    } else {
        let r = without_line_breaks(s.drop_last());
        if s.last() == '\n' || s.last() == '\r' {
            r
        } else {
            r.push(s.last())
        }
    }
}

/// `s` without its line breaks.
pub fn strip_line_breaks(s: &str) -> (out: String)
    ensures
        out@ == without_line_breaks(s@),
{
    let cs = crate::text::chars_of(s);
    let mut out = String::new();
    let mut i: usize = 0;
    while i < cs.len()
        invariant
            i <= cs@.len(),
            cs@ == s@,
            out@ == without_line_breaks(s@.take(i as int)),
        decreases cs@.len() - i,
    {
        let c = cs[i];
        proof {
            assert(s@.take(i + 1).drop_last() =~= s@.take(i as int));
        }
        if c != '\n' && c != '\r' {
            string_push(&mut out, c);
        }
        i += 1;
    }
    assert(s@.take(cs@.len() as int) =~= s@);
    out
}

/// A field and its cursor after pasting `t`: `t` goes in at the cursor (clamped to the end),
/// and the cursor moves on by the byte length of `t`.
pub open spec fn pasted(text: Seq<char>, cursor: usize, t: Seq<char>) -> (Seq<char>, usize) {
    let len = byte_len(text);
    let pos = if cursor < len {
        cursor as int
    } else {
        len as int
    };
    let k = chars_before(text, pos);
    (text.take(k) + t + text.skip(k), (cursor + byte_len(t)) as usize)
}

/// The insertion point starts a character and the cursor does not overflow.
pub open spec fn paste_allowed(text: Seq<char>, cursor: usize, t: Seq<char>) -> bool {
    let len = byte_len(text);
    let pos = if cursor < len {
        cursor as int
    } else {
        len as int
    };
    on_char_boundary(text, pos) && cursor + byte_len(t) <= usize::MAX
}

fn paste_field(text: &mut String, cursor: &mut usize, t: &str)
    requires
        paste_allowed(old(text)@, *old(cursor), t@),
    ensures
        (final(text)@, *final(cursor)) == pasted(old(text)@, *old(cursor), t@),
{
    let len = str_byte_len(text.as_str());
    let pos = if *cursor < len {
        *cursor
    } else {
        len
    };
    string_insert_str(text, pos, t);
    *cursor = *cursor + str_byte_len(t);
}

fn push_all(text: &mut String, t: &str)
    ensures
        final(text)@ == old(text)@ + t@,
{
    let cs = crate::text::chars_of(t);
    let mut i: usize = 0;
    while i < cs.len()
        invariant
            i <= cs@.len(),
            cs@ == t@,
            text@ == old(text)@ + t@.take(i as int),
        decreases cs@.len() - i,
    {
        proof {
            assert(t@.take(i + 1) =~= t@.take(i as int).push(cs@[i as int]));
        }
        string_push(text, cs[i]);
        i += 1;
    }
    assert(t@.take(cs@.len() as int) =~= t@);
}

impl SetupWizard {
    /// The field of the current step accepts a paste of `t` (see `paste_allowed`).
    pub open spec fn paste_ok(&self, t: Seq<char>) -> bool {
        match self.step {
            Step::Url => paste_allowed(self.url@, self.url_cursor, t),
            Step::BasicUser => paste_allowed(self.username@, self.user_cursor, t),
            Step::Bearer => paste_allowed(self.bearer_token@, self.bearer_cursor, t),
            Step::PairingCode => paste_allowed(self.pairing_code@, self.pairing_cursor, t),
            Step::ApiHeader => paste_allowed(self.api_header@, self.header_cursor, t),
            Step::ApiKey => paste_allowed(self.api_key@, self.api_key_cursor, t),
            _ => true,
        }
    }

    /// What pasting `t` (already without line breaks) does: `o` before, `n` after.
    pub open spec fn paste_post(o: SetupWizard, n: SetupWizard, t: Seq<char>) -> bool {
        if t.len() == 0 {
            n == o
        } else {
            match o.step {
                Step::Url => {
                    &&& (n.url@, n.url_cursor) == pasted(o.url@, o.url_cursor, t)
                    &&& n == (SetupWizard { url: n.url, url_cursor: n.url_cursor, ..o })
                },
                Step::BasicUser => {
                    &&& (n.username@, n.user_cursor) == pasted(o.username@, o.user_cursor, t)
                    &&& n == (SetupWizard { username: n.username, user_cursor: n.user_cursor, ..o })
                },
                Step::BasicPass => {
                    &&& n.password@ == o.password@ + t
                    &&& n == (SetupWizard {
                        password: n.password,
                        reuse_keyring_password: false,
                        ..o
                    })
                },
                Step::Bearer => {
                    &&& (n.bearer_token@, n.bearer_cursor) == pasted(
                        o.bearer_token@,
                        o.bearer_cursor,
                        t,
                    )
                    &&& n == (SetupWizard {
                        bearer_token: n.bearer_token,
                        bearer_cursor: n.bearer_cursor,
                        reuse_keyring_bearer: false,
                        ..o
                    })
                },
                Step::PairingCode => {
                    &&& (n.pairing_code@, n.pairing_cursor) == pasted(
                        o.pairing_code@,
                        o.pairing_cursor,
                        t,
                    )
                    &&& n == (SetupWizard {
                        pairing_code: n.pairing_code,
                        pairing_cursor: n.pairing_cursor,
                        ..o
                    })
                },
                Step::ApiHeader => {
                    &&& (n.api_header@, n.header_cursor) == pasted(
                        o.api_header@,
                        o.header_cursor,
                        t,
                    )
                    &&& n == (SetupWizard {
                        api_header: n.api_header,
                        header_cursor: n.header_cursor,
                        ..o
                    })
                },
                Step::ApiKey => {
                    &&& (n.api_key@, n.api_key_cursor) == pasted(o.api_key@, o.api_key_cursor, t)
                    &&& n == (SetupWizard {
                        api_key: n.api_key,
                        api_key_cursor: n.api_key_cursor,
                        reuse_keyring_api_key: false,
                        ..o
                    })
                },
                _ => n == o,
            }
        }
    }

    /// Paste `text` into the field of the current step, without its line breaks.
    pub fn handle_paste(&mut self, text: &str)
        requires
            old(self).paste_ok(without_line_breaks(text@)),
        ensures
            Self::paste_post(*old(self), *final(self), without_line_breaks(text@)),
    {
        let clean = strip_line_breaks(text);
        if str_byte_len(clean.as_str()) == 0 {
            proof {
                crate::text::lemma_byte_len_zero(clean@);
            }
            return;
        }
        proof {
            crate::text::lemma_byte_len_zero(clean@);
        }
        match self.step {
            Step::Url => paste_field(&mut self.url, &mut self.url_cursor, clean.as_str()),
            Step::BasicUser => paste_field(&mut self.username, &mut self.user_cursor, clean.as_str()),
            Step::BasicPass => {
                self.reuse_keyring_password = false;
                push_all(&mut self.password, clean.as_str());
            },
            Step::Bearer => {
                self.reuse_keyring_bearer = false;
                paste_field(&mut self.bearer_token, &mut self.bearer_cursor, clean.as_str());
            },
            Step::PairingCode => paste_field(
                &mut self.pairing_code,
                &mut self.pairing_cursor,
                clean.as_str(),
            ),
            Step::ApiHeader => paste_field(
                &mut self.api_header,
                &mut self.header_cursor,
                clean.as_str(),
            ),
            Step::ApiKey => {
                self.reuse_keyring_api_key = false;
                paste_field(&mut self.api_key, &mut self.api_key_cursor, clean.as_str());
            },
            _ => {},
        }
    }

    /// The directory picker confirmed a path; `validated` is the canonical directory or why it
    /// cannot be used.
    pub fn download_confirmed(&mut self, validated: Result<String, String>)
        ensures
            match validated {
                Ok(dir) => *final(self) == (SetupWizard {
                    download_path: dir,
                    step: Step::AuthMenu,
                    error: None,
                    ..*old(self)
                }),
                Err(e) => *final(self) == (SetupWizard { error: Some(e), ..*old(self) }),
            },
    {
        match validated {
            Ok(dir) => {
                self.error = None;
                self.download_path = dir;
                self.step = Step::AuthMenu;
            },
            Err(e) => {
                self.error = Some(e);
            },
        }
    }
}

// ---------------------------------------------------------------------------
// Construction and the saved configuration
// ---------------------------------------------------------------------------

/// `r` is the error `m`.
pub open spec fn fails_with<T>(r: Result<T, String>, m: Seq<char>) -> bool {
    r matches Err(e) && e@ == m
}

/// `r` is a configuration for `base`, `dir` and `https` whose credentials satisfy `auth`.
pub open spec fn config_with(
    r: Result<WizardConfig, String>,
    base: Seq<char>,
    dir: String,
    https: bool,
    auth: spec_fn(Option<AuthConfig>) -> bool,
) -> bool {
    r matches Ok(c) && c.base_url@ == base && c.download_dir == dir && c.use_https == https
        && auth(c.auth)
}

/// Basic credentials `u` / `p`.
pub open spec fn is_basic(a: Option<AuthConfig>, u: Seq<char>, p: Seq<char>) -> bool {
    a matches Some(AuthConfig::Basic { username, password }) && username@ == u && password@ == p
}

/// A bearer token `t`.
pub open spec fn is_bearer(a: Option<AuthConfig>, t: Seq<char>) -> bool {
    a matches Some(AuthConfig::Bearer { token }) && token@ == t
}

/// Key `k` in header `h`.
pub open spec fn is_api_key(a: Option<AuthConfig>, h: Seq<char>, k: Seq<char>) -> bool {
    a matches Some(AuthConfig::ApiKey { header, key }) && header@ == h && key@ == k
}

impl SetupWizard {
    /// A fresh wizard on the URL step, proposing `default_download_dir` for the ROMs.
    pub fn new(default_download_dir: String) -> (w: SetupWizard)
        ensures
            w.step == Step::Url,
            w.auth_kind == AuthKind::Pairing,
            w.auth_menu_selected == 0,
            w.url@ == "https://"@,
            w.url_cursor == 8,
            w.download_path == default_download_dir,
            w.username@.len() == 0 && w.user_cursor == 0,
            w.password@.len() == 0,
            w.bearer_token@.len() == 0 && w.bearer_cursor == 0,
            w.api_header@.len() == 0 && w.header_cursor == 0,
            w.api_key@.len() == 0 && w.api_key_cursor == 0,
            w.pairing_code@.len() == 0 && w.pairing_cursor == 0,
            !w.reuse_keyring_password && !w.reuse_keyring_bearer && !w.reuse_keyring_api_key,
            !w.testing,
            w.use_https,
            w.error is None,
    {
        SetupWizard {
            step: Step::Url,
            auth_kind: AuthKind::Pairing,
            auth_menu_selected: 0,
            url: string_of("https://"),
            url_cursor: 8,
            download_path: default_download_dir,
            username: String::new(),
            user_cursor: 0,
            password: String::new(),
            bearer_token: String::new(),
            bearer_cursor: 0,
            api_header: String::new(),
            header_cursor: 0,
            api_key: String::new(),
            api_key_cursor: 0,
            pairing_code: String::new(),
            pairing_cursor: 0,
            reuse_keyring_password: false,
            reuse_keyring_bearer: false,
            reuse_keyring_api_key: false,
            testing: false,
            use_https: true,
            error: None,
        }
    }

    /// A wizard that only changes the credentials of `config`, opening on the authentication
    /// menu. `disk_secret_in_keyring`: the configuration on disk keeps this kind's secret in the
    /// OS keyring, so the secret field starts empty and an empty field keeps that secret.
    pub fn new_auth_only(config: &WizardConfig, disk_secret_in_keyring: bool) -> (w: SetupWizard)
        ensures
            w.step == Step::AuthMenu,
            w.url@ == config.base_url@,
            w.url_cursor == 8,
            w.download_path@ == config.download_dir@,
            w.use_https == config.use_https,
            !w.testing,
            w.error is None,
            w.pairing_code@.len() == 0 && w.pairing_cursor == 0,
            match config.auth {
                Some(AuthConfig::Basic { username, password }) => {
                    &&& w.auth_kind == AuthKind::Basic
                    &&& w.auth_menu_selected == 1
                    &&& w.username@ == username@
                    &&& w.user_cursor == byte_len(username@)
                    &&& w.password@ == if disk_secret_in_keyring {
                        Seq::empty()
                    } else {
                        password@
                    }
                    &&& w.reuse_keyring_password == disk_secret_in_keyring
                    &&& !w.reuse_keyring_bearer && !w.reuse_keyring_api_key
                    &&& w.bearer_token@.len() == 0 && w.bearer_cursor == 0
                    &&& w.api_header@.len() == 0 && w.header_cursor == 0
                    &&& w.api_key@.len() == 0 && w.api_key_cursor == 0
                },
                Some(AuthConfig::Bearer { token }) => {
                    &&& w.auth_kind == AuthKind::Bearer
                    &&& w.auth_menu_selected == 2
                    &&& w.bearer_token@ == if disk_secret_in_keyring {
                        Seq::empty()
                    } else {
                        token@
                    }
                    &&& w.bearer_cursor == if disk_secret_in_keyring {
                        0
                    } else {
                        byte_len(token@)
                    }
                    &&& w.reuse_keyring_bearer == disk_secret_in_keyring
                    &&& !w.reuse_keyring_password && !w.reuse_keyring_api_key
                    &&& w.username@.len() == 0 && w.user_cursor == 0 && w.password@.len() == 0
                    &&& w.api_header@.len() == 0 && w.header_cursor == 0
                    &&& w.api_key@.len() == 0 && w.api_key_cursor == 0
                },
                Some(AuthConfig::ApiKey { header, key }) => {
                    &&& w.auth_kind == AuthKind::ApiKey
                    &&& w.auth_menu_selected == 3
                    &&& w.api_header@ == header@
                    &&& w.header_cursor == byte_len(header@)
                    &&& w.api_key@ == if disk_secret_in_keyring {
                        Seq::empty()
                    } else {
                        key@
                    }
                    &&& w.api_key_cursor == if disk_secret_in_keyring {
                        0
                    } else {
                        byte_len(key@)
                    }
                    &&& w.reuse_keyring_api_key == disk_secret_in_keyring
                    &&& !w.reuse_keyring_password && !w.reuse_keyring_bearer
                    &&& w.username@.len() == 0 && w.user_cursor == 0 && w.password@.len() == 0
                    &&& w.bearer_token@.len() == 0 && w.bearer_cursor == 0
                },
                None => {
                    &&& w.auth_kind == AuthKind::Pairing
                    &&& w.auth_menu_selected == 0
                    &&& !w.reuse_keyring_password && !w.reuse_keyring_bearer
                        && !w.reuse_keyring_api_key
                    &&& w.username@.len() == 0 && w.user_cursor == 0 && w.password@.len() == 0
                    &&& w.bearer_token@.len() == 0 && w.bearer_cursor == 0
                    &&& w.api_header@.len() == 0 && w.header_cursor == 0
                    &&& w.api_key@.len() == 0 && w.api_key_cursor == 0
                },
            },
    {
        let mut w = SetupWizard::new(string_of(config.download_dir.as_str()));
        w.step = Step::AuthMenu;
        w.url = string_of(config.base_url.as_str());
        w.use_https = config.use_https;
        match &config.auth {
            Some(AuthConfig::Basic { username, password }) => {
                w.auth_kind = AuthKind::Basic;
                w.auth_menu_selected = 1;
                w.username = string_of(username.as_str());
                w.user_cursor = str_byte_len(username.as_str());
                if disk_secret_in_keyring {
                    w.password = String::new();
                    w.reuse_keyring_password = true;
                } else {
                    w.password = string_of(password.as_str());
                }
            },
            Some(AuthConfig::Bearer { token }) => {
                w.auth_kind = AuthKind::Bearer;
                w.auth_menu_selected = 2;
                if disk_secret_in_keyring {
                    w.bearer_token = String::new();
                    w.bearer_cursor = 0;
                    w.reuse_keyring_bearer = true;
                } else {
                    w.bearer_token = string_of(token.as_str());
                    w.bearer_cursor = str_byte_len(token.as_str());
                }
            },
            Some(AuthConfig::ApiKey { header, key }) => {
                w.auth_kind = AuthKind::ApiKey;
                w.auth_menu_selected = 3;
                w.api_header = string_of(header.as_str());
                w.header_cursor = str_byte_len(header.as_str());
                if disk_secret_in_keyring {
                    w.api_key = String::new();
                    w.api_key_cursor = 0;
                    w.reuse_keyring_api_key = true;
                } else {
                    w.api_key = string_of(key.as_str());
                    w.api_key_cursor = str_byte_len(key.as_str());
                }
            },
            None => {
                w.auth_kind = AuthKind::Pairing;
                w.auth_menu_selected = 0;
            },
        }
        w
    }

    /// The OS keyring entry whose secret saving needs: the chosen kind's secret field is empty
    /// and the configuration on disk keeps it in the keyring.
    pub fn keyring_entry_needed(&self) -> (name: Option<&'static str>)
        ensures
            match self.auth_kind {
                AuthKind::Basic => if self.password@.len() == 0 && self.reuse_keyring_password {
                    name matches Some(n) && n@ == "API_PASSWORD"@
                } else {
                    name is None
                },
                AuthKind::Bearer => if trim_spec(self.bearer_token@).len() == 0
                    && self.reuse_keyring_bearer {
                    name matches Some(n) && n@ == "API_TOKEN"@
                } else {
                    name is None
                },
                AuthKind::ApiKey => if self.api_key@.len() == 0 && self.reuse_keyring_api_key {
                    name matches Some(n) && n@ == "API_KEY"@
                } else {
                    name is None
                },
                AuthKind::Pairing => name is None,
            },
    {
        match self.auth_kind {
            AuthKind::Basic => if self.password.as_str().is_empty() && self.reuse_keyring_password {
                Some("API_PASSWORD")
            } else {
                None
            },
            AuthKind::Bearer => if is_blank(self.bearer_token.as_str()) && self.reuse_keyring_bearer {
                Some("API_TOKEN")
            } else {
                None
            },
            AuthKind::ApiKey => if self.api_key.as_str().is_empty() && self.reuse_keyring_api_key {
                Some("API_KEY")
            } else {
                None
            },
            AuthKind::Pairing => None,
        }
    }

    /// What `build_config` returns for server origin `origin`, directory check `dir` and keyring
    /// answer `secret`.
    pub open spec fn build_post(
        &self,
        origin: Seq<char>,
        dir: Result<String, String>,
        secret: Option<String>,
        r: Result<WizardConfig, String>,
    ) -> bool {
        if origin.len() == 0 {
            fails_with(r, "Server URL cannot be empty"@)
        } else {
            match dir {
                Err(e) => r matches Err(f) && f == e,
                Ok(d) => match self.auth_kind {
                    AuthKind::Basic => {
                        let u = trim_spec(self.username@);
                        if u.len() == 0 {
                            fails_with(r, "Username cannot be empty"@)
                        } else if self.password@.len() == 0 && self.reuse_keyring_password {
                            match secret {
                                Some(p) => config_with(
                                    r,
                                    origin,
                                    d,
                                    self.use_https,
                                    |a: Option<AuthConfig>| is_basic(a, u, p@),
                                ),
                                None => fails_with(
                                    r,
                                    "Password not in OS keyring; enter a password or run romm-cli init"@,
                                ),
                            }
                        } else if self.password@.len() == 0 {
                            fails_with(r, "Password cannot be empty"@)
                        } else {
                            config_with(
                                r,
                                origin,
                                d,
                                self.use_https,
                                |a: Option<AuthConfig>| is_basic(a, u, self.password@),
                            )
                        }
                    },
                    AuthKind::Bearer => {
                        let t = trim_spec(self.bearer_token@);
                        if t.len() == 0 && self.reuse_keyring_bearer {
                            match secret {
                                Some(k) => config_with(
                                    r,
                                    origin,
                                    d,
                                    self.use_https,
                                    |a: Option<AuthConfig>| is_bearer(a, k@),
                                ),
                                None => fails_with(
                                    r,
                                    "API token not in OS keyring; enter a token or run romm-cli init"@,
                                ),
                            }
                        } else if t.len() == 0 {
                            fails_with(r, "Bearer token cannot be empty"@)
                        } else {
                            config_with(
                                r,
                                origin,
                                d,
                                self.use_https,
                                |a: Option<AuthConfig>| is_bearer(a, t),
                            )
                        }
                    },
                    AuthKind::ApiKey => {
                        let h = trim_spec(self.api_header@);
                        if h.len() == 0 {
                            fails_with(r, "Header name cannot be empty"@)
                        } else if self.api_key@.len() == 0 && self.reuse_keyring_api_key {
                            match secret {
                                Some(k) => config_with(
                                    r,
                                    origin,
                                    d,
                                    self.use_https,
                                    |a: Option<AuthConfig>| is_api_key(a, h, k@),
                                ),
                                None => fails_with(
                                    r,
                                    "API key not in OS keyring; enter a key or run romm-cli init"@,
                                ),
                            }
                        } else if self.api_key@.len() == 0 {
                            fails_with(r, "API key cannot be empty"@)
                        } else {
                            config_with(
                                r,
                                origin,
                                d,
                                self.use_https,
                                |a: Option<AuthConfig>| is_api_key(a, h, self.api_key@),
                            )
                        }
                    },
                    AuthKind::Pairing => fails_with(
                        r,
                        "Pairing auth is applied when connecting; use the pairing code step and connect"@,
                    ),
                },
            }
        }
    }

    /// The configuration to save for the chosen credentials (not pairing). `origin` is the
    /// server origin that the URL field names (empty when it names none), `dir` the checked
    /// ROMs directory or why it is unusable, `secret` the keyring's answer for
    /// `keyring_entry_needed`.
    pub fn build_config(&self, origin: &str, dir: Result<String, String>, secret: Option<String>) -> (r:
        Result<WizardConfig, String>)
        ensures
            self.build_post(origin@, dir, secret, r),
    {
        if origin.is_empty() {
            return Err(string_of("Server URL cannot be empty"));
        }
        let d = match dir {
            Err(e) => {
                return Err(e);
            },
            Ok(d) => d,
        };
        let auth = match self.auth_kind {
            AuthKind::Basic => {
                let u = trim(self.username.as_str());
                if u.as_str().is_empty() {
                    return Err(string_of("Username cannot be empty"));
                }
                let password = if self.password.as_str().is_empty() && self.reuse_keyring_password {
                    match secret {
                        Some(p) => p,
                        None => {
                            return Err(
                                string_of(
                                    "Password not in OS keyring; enter a password or run romm-cli init",
                                ),
                            );
                        },
                    }
                } else if self.password.as_str().is_empty() {
                    return Err(string_of("Password cannot be empty"));
                } else {
                    string_of(self.password.as_str())
                };
                AuthConfig::Basic { username: u, password }
            },
            AuthKind::Bearer => {
                let t = trim(self.bearer_token.as_str());
                let token = if t.as_str().is_empty() && self.reuse_keyring_bearer {
                    match secret {
                        Some(k) => k,
                        None => {
                            return Err(
                                string_of(
                                    "API token not in OS keyring; enter a token or run romm-cli init",
                                ),
                            );
                        },
                    }
                } else if t.as_str().is_empty() {
                    return Err(string_of("Bearer token cannot be empty"));
                } else {
                    t
                };
                AuthConfig::Bearer { token }
            },
            AuthKind::ApiKey => {
                let h = trim(self.api_header.as_str());
                if h.as_str().is_empty() {
                    return Err(string_of("Header name cannot be empty"));
                }
                let key = if self.api_key.as_str().is_empty() && self.reuse_keyring_api_key {
                    match secret {
                        Some(k) => k,
                        None => {
                            return Err(
                                string_of(
                                    "API key not in OS keyring; enter a key or run romm-cli init",
                                ),
                            );
                        },
                    }
                } else if self.api_key.as_str().is_empty() {
                    return Err(string_of("API key cannot be empty"));
                } else {
                    string_of(self.api_key.as_str())
                };
                AuthConfig::ApiKey { header: h, key }
            },
            AuthKind::Pairing => {
                return Err(
                    string_of(
                        "Pairing auth is applied when connecting; use the pairing code step and connect",
                    ),
                );
            },
        };
        Ok(WizardConfig {
            base_url: string_of(origin),
            download_dir: d,
            use_https: self.use_https,
            auth: Some(auth),
        })
    }

    /// The pairing-code exchange to make: checks the server origin, then the code, then the
    /// ROMs directory.
    pub fn pairing_request(&self, origin: &str, dir: Result<String, String>) -> (r: Result<
        PairingRequest,
        String,
    >)
        ensures
            origin@.len() == 0 ==> fails_with(r, "Server URL cannot be empty"@),
            origin@.len() > 0 && trim_spec(self.pairing_code@).len() == 0 ==> fails_with(
                r,
                "Pairing code cannot be empty"@,
            ),
            origin@.len() > 0 && trim_spec(self.pairing_code@).len() > 0 ==> match dir {
                Err(e) => r matches Err(f) && f == e,
                Ok(d) => r matches Ok(p) && p.base_url@ == origin@ && p.download_dir == d
                    && p.code@ == trim_spec(self.pairing_code@),
            },
    {
        if origin.is_empty() {
            return Err(string_of("Server URL cannot be empty"));
        }
        let code = trim(self.pairing_code.as_str());
        if code.as_str().is_empty() {
            return Err(string_of("Pairing code cannot be empty"));
        }
        match dir {
            Err(e) => Err(e),
            Ok(d) => Ok(PairingRequest { base_url: string_of(origin), download_dir: d, code }),
        }
    }
}

/// The configuration after a pairing exchange returned `raw_token`: bearer credentials.
pub fn pairing_config(req: PairingRequest, use_https: bool, raw_token: String) -> (c: WizardConfig)
    ensures
        c.base_url == req.base_url,
        c.download_dir == req.download_dir,
        c.use_https == use_https,
        c.auth matches Some(AuthConfig::Bearer { token }) && token == raw_token,
{
    WizardConfig {
        base_url: req.base_url,
        download_dir: req.download_dir,
        use_https,
        auth: Some(AuthConfig::Bearer { token: raw_token }),
    }
}

// ---------------------------------------------------------------------------
// What the wizard shows
// ---------------------------------------------------------------------------

/// Title of a step's panel.
pub open spec fn spec_step_title(step: Step) -> Seq<char> {
    match step {
        Step::Url => "Step 1/5 — RomM server URL"@,
        Step::Https => "Step 2/5 — Secure connection"@,
        Step::Download => "Step 3/5 — ROMs directory"@,
        Step::AuthMenu => "Step 4/5 — Authentication"@,
        Step::BasicUser | Step::BasicPass => "Step 5/5 — Basic auth"@,
        Step::Bearer => "Step 5/5 — API Token"@,
        Step::ApiHeader | Step::ApiKey => "Step 5/5 — API key"@,
        Step::PairingCode => "Step 5/5 — Pair with Web UI"@,
        Step::Summary => "Review & connect"@,
    }
}

/// Title of a step's panel.
pub fn step_title(step: Step) -> (t: &'static str)
    ensures
        t@ == spec_step_title(step),
{
    match step {
        Step::Url => "Step 1/5 — RomM server URL",
        Step::Https => "Step 2/5 — Secure connection",
        Step::Download => "Step 3/5 — ROMs directory",
        Step::AuthMenu => "Step 4/5 — Authentication",
        Step::BasicUser | Step::BasicPass => "Step 5/5 — Basic auth",
        Step::Bearer => "Step 5/5 — API Token",
        Step::ApiHeader | Step::ApiKey => "Step 5/5 — API key",
        Step::PairingCode => "Step 5/5 — Pair with Web UI",
        Step::Summary => "Review & connect",
    }
}

/// The hint above a step's panel (the URL step shows an introduction instead).
pub fn step_hint(step: Step) -> (t: &'static str)
    ensures
        t@ == match step {
            Step::Https => "HTTPS ensures your credentials are encrypted in transit. Only disable if necessary."@,
            Step::Download => "Choose a directory to save ROMs. Make sure you have write permissions."@,
            Step::AuthMenu => "Select how you authenticate with the RomM server."@,
            Step::BasicUser | Step::BasicPass => "Enter the exact same username and password you use to log into the RomM web UI."@,
            Step::Bearer => "To get an API token, go to the RomM web UI -> client API Tokens -> generate a new token."@,
            Step::PairingCode => "Login to RomM in your browser, go to your profile menu -> Client API Tokens, and create a new token."@,
            Step::ApiHeader | Step::ApiKey => "Use this only if you have a custom reverse proxy setup requiring specific headers (e.g., X-Api-Key). Otherwise, use API Token."@,
            Step::Summary => "Review your configuration before testing the connection."@,
            Step::Url => ""@,
        },
{
    match step {
        Step::Https => "HTTPS ensures your credentials are encrypted in transit. Only disable if necessary.",
        Step::Download => "Choose a directory to save ROMs. Make sure you have write permissions.",
        Step::AuthMenu => "Select how you authenticate with the RomM server.",
        Step::BasicUser | Step::BasicPass => "Enter the exact same username and password you use to log into the RomM web UI.",
        Step::Bearer => "To get an API token, go to the RomM web UI -> client API Tokens -> generate a new token.",
        Step::PairingCode => "Login to RomM in your browser, go to your profile menu -> Client API Tokens, and create a new token.",
        Step::ApiHeader | Step::ApiKey => "Use this only if you have a custom reverse proxy setup requiring specific headers (e.g., X-Api-Key). Otherwise, use API Token.",
        Step::Summary => "Review your configuration before testing the connection.",
        Step::Url => "",
    }
}

/// `text` with a caret after its first `cursor` characters (all of them when it has fewer).
pub open spec fn with_caret(text: Seq<char>, cursor: usize) -> Seq<char> {
    let k = if cursor < text.len() {
        cursor as int
    } else {
        text.len() as int
    };
    text.take(k) + "▏"@ + text.skip(k)
}

/// `text` with a caret after its first `cursor` characters.
pub fn field_with_caret(text: &str, cursor: usize) -> (out: String)
    ensures
        out@ == with_caret(text@, cursor),
{
    let cs = crate::text::chars_of(text);
    let k = if cursor < cs.len() {
        cursor
    } else {
        cs.len()
    };
    let mut out = String::new();
    let mut i: usize = 0;
    while i < k
        invariant
            k <= cs@.len(),
            cs@ == text@,
            i <= k,
            out@ == text@.take(i as int),
        decreases k - i,
    {
        proof {
            assert(text@.take(i + 1) =~= text@.take(i as int).push(cs@[i as int]));
        }
        string_push(&mut out, cs[i]);
        i += 1;
    }
    push_all(&mut out, "▏");
    let mut j: usize = k;
    while j < cs.len()
        invariant
            k <= j <= cs@.len(),
            cs@ == text@,
            out@ == text@.take(k as int) + "▏"@ + text@.subrange(k as int, j as int),
        decreases cs@.len() - j,
    {
        proof {
            assert(text@.subrange(k as int, j + 1) =~= text@.subrange(k as int, j as int).push(
                cs@[j as int],
            ));
        }
        string_push(&mut out, cs[j]);
        j += 1;
    }
    assert(text@.subrange(k as int, cs@.len() as int) =~= text@.skip(k as int));
    out
}

/// One bullet per byte of a hidden field.
pub open spec fn bullets(n: nat) -> Seq<char> {
    Seq::new(n, |i: int| '•')
}

/// The hidden form of a secret: one bullet per byte.
pub fn masked(secret: &str) -> (out: String)
    ensures
        out@ == bullets(byte_len(secret@)),
{
    let n = str_byte_len(secret);
    let mut out = String::new();
    let mut i: usize = 0;
    while i < n
        invariant
            i <= n,
            out@ == bullets(i as nat),
        decreases n - i,
    {
        string_push(&mut out, '•');
        i += 1;
        assert(out@ =~= bullets(i as nat));
    }
    out
}

/// Where the terminal cursor stands in a step's panel.
#[derive(Debug, Clone, Copy, PartialEq, Eq, Structural)]
pub enum CursorSpot {
    /// No cursor on this step.
    Hidden,
    /// Column and row from the panel's top-left corner.
    At(usize, usize),
    /// The directory picker places it.
    Picker,
}

impl SetupWizard {
    /// Column of a field's cursor: past the border, at the cursor clamped to the field's bytes.
    pub open spec fn caret_column(text: Seq<char>, cursor: usize) -> usize {
        if cursor < byte_len(text) {
            (cursor + 1) as usize
        } else {
            (byte_len(text) + 1) as usize
        }
    }

    /// Where the terminal cursor stands on the current step. On the password step it stands
    /// past the mask, counted in bytes: one three-byte bullet per byte of the password.
    pub fn cursor_spot(&self) -> (c: CursorSpot)
        requires
            3 * byte_len(self.password@) < usize::MAX,
            byte_len(self.url@) < usize::MAX,
            byte_len(self.bearer_token@) < usize::MAX,
            byte_len(self.pairing_code@) < usize::MAX,
            byte_len(self.username@) < usize::MAX,
            byte_len(self.api_header@) < usize::MAX,
            byte_len(self.api_key@) < usize::MAX,
        ensures
            c == match self.step {
                Step::Url => CursorSpot::At(Self::caret_column(self.url@, self.url_cursor), 1),
                Step::Download => CursorSpot::Picker,
                Step::Bearer => CursorSpot::At(
                    Self::caret_column(self.bearer_token@, self.bearer_cursor),
                    1,
                ),
                Step::PairingCode => CursorSpot::At(
                    Self::caret_column(self.pairing_code@, self.pairing_cursor),
                    3,
                ),
                Step::BasicUser => CursorSpot::At(
                    Self::caret_column(self.username@, self.user_cursor),
                    2,
                ),
                Step::BasicPass => CursorSpot::At((1 + 3 * byte_len(self.password@)) as usize, 6),
                Step::ApiHeader => CursorSpot::At(
                    Self::caret_column(self.api_header@, self.header_cursor),
                    2,
                ),
                Step::ApiKey => CursorSpot::At(
                    Self::caret_column(self.api_key@, self.api_key_cursor),
                    6,
                ),
                Step::Https | Step::AuthMenu | Step::Summary => CursorSpot::Hidden,
            },
    {
        match self.step {
            Step::Url => CursorSpot::At(caret_column_of(self.url.as_str(), self.url_cursor), 1),
            Step::Download => CursorSpot::Picker,
            Step::Bearer => CursorSpot::At(
                caret_column_of(self.bearer_token.as_str(), self.bearer_cursor),
                1,
            ),
            Step::PairingCode => CursorSpot::At(
                caret_column_of(self.pairing_code.as_str(), self.pairing_cursor),
                3,
            ),
            Step::BasicUser => CursorSpot::At(
                caret_column_of(self.username.as_str(), self.user_cursor),
                2,
            ),
            Step::BasicPass => CursorSpot::At(1 + 3 * str_byte_len(self.password.as_str()), 6),
            Step::ApiHeader => CursorSpot::At(
                caret_column_of(self.api_header.as_str(), self.header_cursor),
                2,
            ),
            Step::ApiKey => CursorSpot::At(
                caret_column_of(self.api_key.as_str(), self.api_key_cursor),
                6,
            ),
            Step::Https | Step::AuthMenu | Step::Summary => CursorSpot::Hidden,
        }
    }

    /// The username line of the basic-auth step: with the caret while that field is being
    /// edited, as typed otherwise.
    pub fn username_line(&self) -> (out: String)
        ensures
            out@ == if self.step == Step::BasicUser {
                with_caret(self.username@, self.user_cursor)
            } else {
                self.username@
            },
    {
        if self.step == Step::BasicUser {
            field_with_caret(self.username.as_str(), self.user_cursor)
        } else {
            string_of(self.username.as_str())
        }
    }

    /// The header-name line of the API-key step: with the caret while that field is being
    /// edited, as typed otherwise.
    pub fn header_line(&self) -> (out: String)
        ensures
            out@ == if self.step == Step::ApiHeader {
                with_caret(self.api_header@, self.header_cursor)
            } else {
                self.api_header@
            },
    {
        if self.step == Step::ApiHeader {
            field_with_caret(self.api_header.as_str(), self.header_cursor)
        } else {
            string_of(self.api_header.as_str())
        }
    }

    /// The note under an empty password that the keyring still holds one.
    pub fn password_keyring_hint(&self) -> (t: &'static str)
        ensures
            t@ == if self.step == Step::BasicPass && byte_len(self.password@) == 0
                && self.reuse_keyring_password {
                "\n\n(stored in OS keyring — leave blank to keep, or type a new password)"@
            } else {
                ""@
            },
    {
        if self.step == Step::BasicPass && str_byte_len(self.password.as_str()) == 0
            && self.reuse_keyring_password {
            "\n\n(stored in OS keyring — leave blank to keep, or type a new password)"
        } else {
            ""
        }
    }

    /// The note under an empty API key that the keyring still holds one.
    pub fn api_key_keyring_hint(&self) -> (t: &'static str)
        ensures
            t@ == if self.step == Step::ApiKey && byte_len(self.api_key@) == 0
                && self.reuse_keyring_api_key {
                "\n\n(stored in OS keyring — leave blank to keep, or type a new key)"@
            } else {
                ""@
            },
    {
        if self.step == Step::ApiKey && str_byte_len(self.api_key.as_str()) == 0
            && self.reuse_keyring_api_key {
            "\n\n(stored in OS keyring — leave blank to keep, or type a new key)"
        } else {
            ""
        }
    }

    /// The note under an empty API token that the keyring still holds one.
    pub fn bearer_keyring_note(&self) -> (t: Option<&'static str>)
        ensures
            t matches Some(m) ==> m@ == "Token stored in OS keyring — leave blank to keep, or type a new token."@,
            t is Some == (byte_len(self.bearer_token@) == 0 && self.reuse_keyring_bearer),
    {
        if str_byte_len(self.bearer_token.as_str()) == 0 && self.reuse_keyring_bearer {
            Some("Token stored in OS keyring — leave blank to keep, or type a new token.")
        } else {
            None
        }
    }

    /// The key help under the panel.
    pub fn footer_keys(&self) -> (t: &'static str)
        ensures
            t@ == match self.step {
                Step::Url => "Enter: next   Backspace: delete   Esc: quit"@,
                Step::Https => "Space: toggle   Enter: next   Esc: quit"@,
                Step::Download => "Ctrl+Enter: next (creates path)   ↑ list top: path bar   ↓/↑: list focus   Tab: path/list   Esc: quit"@,
                Step::AuthMenu => "↑/↓: choose   Enter: next   Esc: quit"@,
                Step::BasicUser | Step::BasicPass => "Type text   Tab: switch field   Enter: next step   Esc: quit"@,
                Step::Bearer => "Enter: next step   Esc: quit"@,
                Step::PairingCode => "Enter: next step   Esc: quit"@,
                Step::ApiHeader | Step::ApiKey => "Tab: switch field   Enter: next step   Esc: quit"@,
                Step::Summary => if self.testing {
                    "Please wait…"@
                } else {
                    "Enter: connect & save"@
                },
            },
    {
        match self.step {
            Step::Url => "Enter: next   Backspace: delete   Esc: quit",
            Step::Https => "Space: toggle   Enter: next   Esc: quit",
            Step::Download => "Ctrl+Enter: next (creates path)   ↑ list top: path bar   ↓/↑: list focus   Tab: path/list   Esc: quit",
            Step::AuthMenu => "↑/↓: choose   Enter: next   Esc: quit",
            Step::BasicUser | Step::BasicPass => "Type text   Tab: switch field   Enter: next step   Esc: quit",
            Step::Bearer => "Enter: next step   Esc: quit",
            Step::PairingCode => "Enter: next step   Esc: quit",
            Step::ApiHeader | Step::ApiKey => "Tab: switch field   Enter: next step   Esc: quit",
            Step::Summary => if self.testing {
                "Please wait…"
            } else {
                "Enter: connect & save"
            },
        }
    }

    /// The HTTPS step's choice line.
    pub fn https_choice(&self) -> (t: &'static str)
        ensures
            t@ == if self.use_https {
                "[X] Use HTTPS (Recommended)"@
            } else {
                "[ ] Use HTTPS (Insecure)"@
            },
    {
        if self.use_https {
            "[X] Use HTTPS (Recommended)"
        } else {
            "[ ] Use HTTPS (Insecure)"
        }
    }

    /// How the summary names the credentials.
    pub open spec fn spec_auth_description(&self) -> Seq<char> {
        match self.auth_kind {
            AuthKind::Basic => "Basic"@,
            AuthKind::Bearer => "API Token"@,
            AuthKind::ApiKey => "API key header"@,
            AuthKind::Pairing => if trim_spec(self.pairing_code@).len() == 0 {
                "Pair with Web UI (no code yet)"@
            } else {
                "Pair with Web UI (code entered)"@
            },
        }
    }

    /// How the summary names the credentials.
    pub fn auth_description(&self) -> (t: &'static str)
        ensures
            t@ == self.spec_auth_description(),
    {
        match self.auth_kind {
            AuthKind::Basic => "Basic",
            AuthKind::Bearer => "API Token",
            AuthKind::ApiKey => "API key header",
            AuthKind::Pairing => if is_blank(self.pairing_code.as_str()) {
                "Pair with Web UI (no code yet)"
            } else {
                "Pair with Web UI (code entered)"
            },
        }
    }

    /// The review lines: server origin, ROMs directory, scheme, credentials, a blank line, then
    /// the connection state.
    pub fn summary_lines(&self, origin: &str) -> (v: Vec<String>)
        ensures
            v@.len() == 6,
            v@[0]@ == "Server: "@ + origin@,
            v@[1]@ == "ROMs Dir: "@ + trim_spec(self.download_path@),
            v@[2]@ == "Use HTTPS: "@ + if self.use_https {
                "Yes"@
            } else {
                "No"@
            },
            v@[3]@ == "Auth: "@ + self.spec_auth_description(),
            v@[4]@.len() == 0,
            v@[5]@ == if self.testing {
                "Connecting to server…"@
            } else {
                match self.error {
                    Some(e) => "Last error: "@ + e@,
                    None => "Enter: test connection and save   Esc: quit"@,
                }
            },
    {
        let mut v: Vec<String> = Vec::new();
        v.push(crate::text::concat("Server: ", origin));
        let dir = trim(self.download_path.as_str());
        v.push(crate::text::concat("ROMs Dir: ", dir.as_str()));
        v.push(
            crate::text::concat(
                "Use HTTPS: ",
                if self.use_https {
                    "Yes"
                } else {
                    "No"
                },
            ),
        );
        v.push(crate::text::concat("Auth: ", self.auth_description()));
        v.push(String::new());
        if self.testing {
            v.push(string_of("Connecting to server…"));
        } else {
            match &self.error {
                Some(e) => v.push(crate::text::concat("Last error: ", e.as_str())),
                None => v.push(string_of("Enter: test connection and save   Esc: quit")),
            }
        }
        v
    }
}

fn caret_column_of(text: &str, cursor: usize) -> (c: usize)
    requires
        byte_len(text@) < usize::MAX,
    ensures
        c == SetupWizard::caret_column(text@, cursor),
{
    let n = str_byte_len(text);
    if cursor < n {
        cursor + 1
    } else {
        n + 1
    }
}

impl SetupWizard {
    /// The connection test finished: `Ok(has_credentials)` once the configuration is saved
    /// (whether credentials could be loaded back), `Err` with why it failed. Testing ends; on
    /// success the settings screen shows the returned message, on failure the wizard shows the
    /// error.
    pub fn connect_finished(&mut self, result: Result<bool, String>) -> (m: Option<(String, MessageTone)>)
        ensures
            match result {
                Ok(auth_ok) => {
                    &&& m matches Some((t, tone)) && if auth_ok {
                        t@ == "Authentication updated successfully"@ && tone == MessageTone::Success
                    } else {
                        t@ == "Saved configuration but credentials could not be loaded from the OS keyring (see logs)."@
                            && tone == MessageTone::Warning
                    }
                    &&& *final(self) == (SetupWizard { testing: false, ..*old(self) })
                },
                Err(e) => {
                    &&& m is None
                    &&& *final(self) == (SetupWizard { testing: false, error: Some(e), ..*old(self) })
                },
            },
    {
        self.testing = false;
        match result {
            Ok(auth_ok) => if auth_ok {
                Some((string_of("Authentication updated successfully"), MessageTone::Success))
            } else {
                Some(
                    (
                        string_of(
                            "Saved configuration but credentials could not be loaded from the OS keyring (see logs).",
                        ),
                        MessageTone::Warning,
                    ),
                )
            },
            Err(e) => {
                self.error = Some(e);
                None
            },
        }
    }
}

/// Typing a character into a field and then pressing Backspace gives the field back, with
/// the cursor where the character went in (at the end when it stood past it).
pub proof fn lemma_type_then_backspace(text: Seq<char>, cursor: usize, c: char)
    requires
        edit_allowed(text, cursor, KeyCode::Char(c)),
    ensures
        ({
            let (t1, c1) = edited(text, cursor, KeyCode::Char(c));
            let pos = if cursor < byte_len(text) {
                cursor
            } else {
                byte_len(text) as usize
            };
            &&& edit_allowed(t1, c1, KeyCode::Backspace)
            &&& edited(t1, c1, KeyCode::Backspace) == (text, pos)
        }),
{
    let len = byte_len(text);
    let pos = if cursor < len {
        cursor as int
    } else {
        len as int
    };
    let k = chars_before(text, pos);
    crate::text::lemma_boundary_prefix(text, pos);
    let t1 = text.take(k) + seq![c] + text.skip(k);
    crate::text::lemma_insert_prefix(text, k, c);
    crate::text::lemma_prefix_boundary(t1, k);
    crate::text::lemma_prefix_boundary(t1, k + 1);
    crate::text::lemma_prefix_boundary(t1, t1.len() as int);
    assert(t1.take(t1.len() as int) =~= t1);
    vstd::utf8::char_is_scalar(c);
    assert(t1.remove(k) =~= text);
}

} // verus!
