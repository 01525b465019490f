//! Keys as the application sees them, and the global routing of a key press: which overlay
//! consumes it, or which screen handles it.

use vstd::prelude::*;

verus! {

/// A key, as the terminal reports it.
#[derive(Debug, Clone, Copy, PartialEq, Eq, Structural)]
pub enum KeyCode {
    Char(char),
    F(u8),
    Up,
    Down,
    Left,
    Right,
    Tab,
    BackTab,
    Enter,
    Esc,
    Backspace,
    Delete,
    Home,
    End,
    PageUp,
    PageDown,
    Other,
}

/// A key event: the key, whether Control was held, whether it is a press (not a release or
/// repeat).
#[derive(Debug, Clone, Copy, PartialEq, Eq, Structural)]
pub struct KeyPress {
    pub code: KeyCode,
    pub ctrl: bool,
    pub is_press: bool,
}

/// Ctrl+C (either case) pressed: quit at once, whatever the screen.
pub fn is_force_quit_key(k: &KeyPress) -> (b: bool)
    ensures
        b == (k.is_press && k.ctrl && (k.code == KeyCode::Char('c') || k.code == KeyCode::Char(
            'C',
        ))),
{
    k.is_press && k.ctrl && (k.code == KeyCode::Char('c') || k.code == KeyCode::Char('C'))
}

/// What the event loop does with a key event.
#[derive(Debug, Clone, Copy, PartialEq, Eq, Structural)]
pub enum KeyEventAction {
    /// Leave the application.
    ForceQuit,
    /// Hand the key to `route_global_key` and the screen.
    Handle,
    /// Releases and repeats are ignored.
    Ignore,
}

/// Force-quit first; otherwise only presses are handled.
pub fn key_event_action(k: &KeyPress) -> (a: KeyEventAction)
    ensures
        a == (if k.is_press && k.ctrl && (k.code == KeyCode::Char('c') || k.code == KeyCode::Char(
            'C',
        )) {
            KeyEventAction::ForceQuit
        } else if k.is_press {
            KeyEventAction::Handle
        } else {
            KeyEventAction::Ignore
        }),
{
    if is_force_quit_key(k) {
        KeyEventAction::ForceQuit
    } else if k.is_press {
        KeyEventAction::Handle
    } else {
        KeyEventAction::Ignore
    }
}

/// Which screen is showing.
#[derive(Debug, Clone, Copy, PartialEq, Eq, Structural)]
pub enum ScreenKind {
    MainMenu,
    LibraryBrowse,
    Search,
    Settings,
    Browse,
    Execute,
    Result,
    ResultDetail,
    GameDetail,
    Download,
    SetupWizard,
}

/// `d` (downloads overlay) is a plain character on screens that take typing: search,
/// settings, the setup wizard, and the library while a search bar is open.
pub fn blocks_global_d_shortcut(screen: ScreenKind, library_search_open: bool) -> (b: bool)
    ensures
        b == (screen == ScreenKind::Search || screen == ScreenKind::Settings || screen
            == ScreenKind::SetupWizard || (screen == ScreenKind::LibraryBrowse
            && library_search_open)),
{
    match screen {
        ScreenKind::Search | ScreenKind::Settings | ScreenKind::SetupWizard => true,
        ScreenKind::LibraryBrowse => library_search_open,
        _ => false,
    }
}

/// `?` opens the help except on screens that take typing: search, the setup wizard, the
/// request editor, the library while a search bar is open, and settings while editing.
pub fn allows_global_question_help(
    screen: ScreenKind,
    library_search_open: bool,
    settings_editing: bool,
) -> (b: bool)
    ensures
        b == !(screen == ScreenKind::Search || screen == ScreenKind::SetupWizard || screen
            == ScreenKind::Execute || (screen == ScreenKind::LibraryBrowse && library_search_open)
            || (screen == ScreenKind::Settings && settings_editing)),
{
    match screen {
        ScreenKind::Search | ScreenKind::SetupWizard | ScreenKind::Execute => false,
        ScreenKind::LibraryBrowse => !library_search_open,
        ScreenKind::Settings => !settings_editing,
        _ => true,
    }
}

/// Who consumes a key press.
#[derive(Debug, Clone, Copy, PartialEq, Eq, Structural)]
pub enum GlobalKeyAction {
    /// Esc or Enter closes the error banner.
    DismissError,
    /// Any other key is swallowed while the error banner shows.
    KeepError,
    /// Any key closes the startup banner.
    DismissSplash,
    /// Esc, Enter, F1 or `?` closes the help.
    CloseHelp,
    /// Any other key is swallowed while the help shows.
    KeepHelp,
    /// F1, or `?` where allowed, opens the help.
    OpenHelp,
    /// `d` where allowed toggles the downloads overlay.
    ToggleDownloads,
    /// The screen handles the key.
    ToScreen,
}

/// Global precedence of a key press: the error banner, then the startup banner, then the help,
/// then the help and downloads shortcuts; else the screen.
pub fn route_global_key(
    error_shown: bool,
    splash_shown: bool,
    help_shown: bool,
    screen: ScreenKind,
    library_search_open: bool,
    settings_editing: bool,
    key: KeyCode,
) -> (a: GlobalKeyAction)
    ensures
        a == (if error_shown {
            if key == KeyCode::Esc || key == KeyCode::Enter {
                GlobalKeyAction::DismissError
            } else {
                GlobalKeyAction::KeepError
            }
        } else if splash_shown {
            GlobalKeyAction::DismissSplash
        } else if help_shown {
            if key == KeyCode::Esc || key == KeyCode::Enter || key == KeyCode::F(1) || key
                == KeyCode::Char('?') {
                GlobalKeyAction::CloseHelp
            } else {
                GlobalKeyAction::KeepHelp
            }
        } else if key == KeyCode::F(1) {
            GlobalKeyAction::OpenHelp
        } else if key == KeyCode::Char('?') && !(screen == ScreenKind::Search || screen
            == ScreenKind::SetupWizard || screen == ScreenKind::Execute || (screen
            == ScreenKind::LibraryBrowse && library_search_open) || (screen == ScreenKind::Settings
            && settings_editing)) {
            GlobalKeyAction::OpenHelp
        } else if key == KeyCode::Char('d') && !(screen == ScreenKind::Search || screen
            == ScreenKind::Settings || screen == ScreenKind::SetupWizard || (screen
            == ScreenKind::LibraryBrowse && library_search_open)) {
            GlobalKeyAction::ToggleDownloads
        } else {
            GlobalKeyAction::ToScreen
        }),
{
    if error_shown {
        if key == KeyCode::Esc || key == KeyCode::Enter {
            return GlobalKeyAction::DismissError;
        }
        return GlobalKeyAction::KeepError;
    }
    if splash_shown {
        return GlobalKeyAction::DismissSplash;
    }
    if help_shown {
        if key == KeyCode::Esc || key == KeyCode::Enter || key == KeyCode::F(1) || key
            == KeyCode::Char('?') {
            return GlobalKeyAction::CloseHelp;
        }
        return GlobalKeyAction::KeepHelp;
    }
    if key == KeyCode::F(1) {
        return GlobalKeyAction::OpenHelp;
    }
    if key == KeyCode::Char('?') && allows_global_question_help(
        screen,
        library_search_open,
        settings_editing,
    ) {
        return GlobalKeyAction::OpenHelp;
    }
    if key == KeyCode::Char('d') && !blocks_global_d_shortcut(screen, library_search_open) {
        return GlobalKeyAction::ToggleDownloads;
    }
    GlobalKeyAction::ToScreen
}

} // verus!
