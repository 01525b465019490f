//! Keys on the library screen: which command a key means in the current state, and what the
//! command does to the screen, to the pending ROM load and to collection prefetching.

use vstd::prelude::*;
use crate::cache::{opt_key_view, same_opt_key, RomCacheKey, RomCacheKeyView};
use crate::keys::{KeyCode, KeyPress};
use crate::library_browse::{LibraryBrowseScreen, LibrarySubsection, LibraryViewMode};
use crate::loading::{load_for_selection, DeferredRomLoad, load_selected_roms};
use crate::text_search::LibrarySearchMode;
use crate::types::Rom;

verus! {

/// What a key on the library screen asks for.
#[derive(Debug, Clone, Copy, PartialEq, Eq, Structural)]
pub enum LibraryCommand {
    ClearListSearch,
    DeleteListSearchChar,
    AddListSearchChar(char),
    ListJumpNext,
    CommitListFilter,
    ClearRomSearch,
    DeleteRomSearchChar,
    AddRomSearchChar(char),
    RomJumpNext,
    CommitRomFilter,
    ListUp,
    ListDown,
    RomUp,
    RomDown,
    BackToList,
    SwitchView,
    EnterListSearch(LibrarySearchMode),
    EnterRomSearch(LibrarySearchMode),
    OpenSelectedGame,
    SwitchSubsection,
    BackToMenu,
    Quit,
    Nothing,
}

/// The command of `key`: an open search bar of the focused pane takes the typing keys first
/// (Esc clears, Backspace deletes, characters type, Tab jumps in jump mode, Enter commits);
/// otherwise the pane's navigation keys apply.
pub open spec fn library_command(
    view: LibraryViewMode,
    list_mode: Option<LibrarySearchMode>,
    rom_mode: Option<LibrarySearchMode>,
    list_filter_browsing: bool,
    rom_filter_browsing: bool,
    key: KeyCode,
) -> LibraryCommand {
    if view == LibraryViewMode::List && list_mode is Some {
        match key {
            KeyCode::Esc => LibraryCommand::ClearListSearch,
            KeyCode::Backspace => LibraryCommand::DeleteListSearchChar,
            KeyCode::Char(c) => LibraryCommand::AddListSearchChar(c),
            KeyCode::Tab => if list_mode == Some(LibrarySearchMode::Jump) {
                LibraryCommand::ListJumpNext
            } else {
                LibraryCommand::Nothing
            },
            KeyCode::Enter => LibraryCommand::CommitListFilter,
            _ => LibraryCommand::Nothing,
        }
    } else if view == LibraryViewMode::Roms && rom_mode is Some {
        match key {
            KeyCode::Esc => LibraryCommand::ClearRomSearch,
            KeyCode::Backspace => LibraryCommand::DeleteRomSearchChar,
            KeyCode::Char(c) => LibraryCommand::AddRomSearchChar(c),
            KeyCode::Tab => if rom_mode == Some(LibrarySearchMode::Jump) {
                LibraryCommand::RomJumpNext
            } else {
                LibraryCommand::Nothing
            },
            KeyCode::Enter => LibraryCommand::CommitRomFilter,
            _ => LibraryCommand::Nothing,
        }
    } else {
        let list = view == LibraryViewMode::List;
        match key {
            KeyCode::Up | KeyCode::Char('k') => if list {
                LibraryCommand::ListUp
            } else {
                LibraryCommand::RomUp
            },
            KeyCode::Down | KeyCode::Char('j') => if list {
                LibraryCommand::ListDown
            } else {
                LibraryCommand::RomDown
            },
            KeyCode::Left | KeyCode::Char('h') => if list {
                LibraryCommand::Nothing
            } else {
                LibraryCommand::BackToList
            },
            KeyCode::Right | KeyCode::Char('l') | KeyCode::Tab => LibraryCommand::SwitchView,
            KeyCode::Char('/') => if list {
                LibraryCommand::EnterListSearch(LibrarySearchMode::Filter)
            } else {
                LibraryCommand::EnterRomSearch(LibrarySearchMode::Filter)
            },
            KeyCode::Char('f') => if list {
                LibraryCommand::EnterListSearch(LibrarySearchMode::Jump)
            } else {
                LibraryCommand::EnterRomSearch(LibrarySearchMode::Jump)
            },
            KeyCode::Enter => if list {
                LibraryCommand::SwitchView
            } else {
                LibraryCommand::OpenSelectedGame
            },
            KeyCode::Char('t') => LibraryCommand::SwitchSubsection,
            KeyCode::Esc => if list {
                if list_filter_browsing {
                    LibraryCommand::ClearListSearch
                } else {
                    LibraryCommand::BackToMenu
                }
            } else {
                if rom_filter_browsing {
                    LibraryCommand::ClearRomSearch
                } else {
                    LibraryCommand::BackToList
                }
            },
            KeyCode::Char('q') => LibraryCommand::Quit,
            _ => LibraryCommand::Nothing,
        }
    }
}

/// The command of `key` for the screen's current state (see `library_command`).
pub open spec fn command_for(lib: LibraryBrowseScreen, key: KeyCode) -> LibraryCommand {
    library_command(
        lib.view_mode,
        lib.list_search.mode,
        lib.rom_search.mode,
        lib.list_search.filter_browsing,
        lib.rom_search.filter_browsing,
        key,
    )
}

/// Decide the command of `key` (see `library_command`).
pub fn decide_library_command(lib: &LibraryBrowseScreen, key: KeyCode) -> (c: LibraryCommand)
    ensures
        c == command_for(*lib, key),
{
    let list = lib.view_mode == LibraryViewMode::List;
    if list && lib.list_search.mode.is_some() {
        return match key {
            KeyCode::Esc => LibraryCommand::ClearListSearch,
            KeyCode::Backspace => LibraryCommand::DeleteListSearchChar,
            KeyCode::Char(c) => LibraryCommand::AddListSearchChar(c),
            KeyCode::Tab => if lib.list_search.mode == Some(LibrarySearchMode::Jump) {
                LibraryCommand::ListJumpNext
            } else {
                LibraryCommand::Nothing
            },
            KeyCode::Enter => LibraryCommand::CommitListFilter,
            _ => LibraryCommand::Nothing,
        };
    }
    if !list && lib.rom_search.mode.is_some() {
        return match key {
            KeyCode::Esc => LibraryCommand::ClearRomSearch,
            KeyCode::Backspace => LibraryCommand::DeleteRomSearchChar,
            KeyCode::Char(c) => LibraryCommand::AddRomSearchChar(c),
            KeyCode::Tab => if lib.rom_search.mode == Some(LibrarySearchMode::Jump) {
                LibraryCommand::RomJumpNext
            } else {
                LibraryCommand::Nothing
            },
            KeyCode::Enter => LibraryCommand::CommitRomFilter,
            _ => LibraryCommand::Nothing,
        };
    }
    match key {
        KeyCode::Up | KeyCode::Char('k') => if list {
            LibraryCommand::ListUp
        } else {
            LibraryCommand::RomUp
        },
        KeyCode::Down | KeyCode::Char('j') => if list {
            LibraryCommand::ListDown
        } else {
            LibraryCommand::RomDown
        },
        KeyCode::Left | KeyCode::Char('h') => if list {
            LibraryCommand::Nothing
        } else {
            LibraryCommand::BackToList
        },
        KeyCode::Right | KeyCode::Char('l') | KeyCode::Tab => LibraryCommand::SwitchView,
        KeyCode::Char('/') => if list {
            LibraryCommand::EnterListSearch(LibrarySearchMode::Filter)
        } else {
            LibraryCommand::EnterRomSearch(LibrarySearchMode::Filter)
        },
        KeyCode::Char('f') => if list {
            LibraryCommand::EnterListSearch(LibrarySearchMode::Jump)
        } else {
            LibraryCommand::EnterRomSearch(LibrarySearchMode::Jump)
        },
        KeyCode::Enter => if list {
            LibraryCommand::SwitchView
        } else {
            LibraryCommand::OpenSelectedGame
        },
        KeyCode::Char('t') => LibraryCommand::SwitchSubsection,
        KeyCode::Esc => if list {
            if lib.list_search.filter_browsing {
                LibraryCommand::ClearListSearch
            } else {
                LibraryCommand::BackToMenu
            }
        } else {
            if lib.rom_search.filter_browsing {
                LibraryCommand::ClearRomSearch
            } else {
                LibraryCommand::BackToList
            }
        },
        KeyCode::Char('q') => LibraryCommand::Quit,
        _ => LibraryCommand::Nothing,
    }
}

/// What happens to the pending ROM load.
pub enum DeferredChange {
    /// It stays as it was.
    Keep,
    /// It is dropped.
    Clear,
    /// It is replaced.
    Replace(DeferredRomLoad),
}

/// Where the key leaves the application.
pub enum LibraryExit {
    Stay,
    Quit,
    BackToMenu,
    /// Open the detail screen of this game (primary file and updates/DLC).
    OpenGame(Rom, Vec<Rom>),
}

/// Everything a library key does besides changing the screen.
pub struct LibraryKeyOutcome {
    pub command: LibraryCommand,
    pub exit: LibraryExit,
    pub deferred: DeferredChange,
    /// Queue collection prefetches around the selection.
    pub prefetch: bool,
}

/// After the selection moved to `mid`: a row with games is marked loading and its load is
/// queued (context `ctx`); a row without games is marked idle and the pending load dropped.
pub open spec fn load_step(
    mid: LibraryBrowseScreen,
    fin: LibraryBrowseScreen,
    d: DeferredChange,
    ctx: Seq<char>,
) -> bool {
    if mid.selected_expected() > 0 {
        &&& fin == (LibraryBrowseScreen { rom_loading: true, ..mid })
        &&& d matches DeferredChange::Replace(x) && load_for_selection(mid, x) && x.context@ == ctx
    } else {
        &&& fin == (LibraryBrowseScreen { rom_loading: false, ..mid })
        &&& d is Clear
    }
}

/// After a list-search command left the screen at `mid`: when the selected row changed and the
/// list is not empty, the games are cleared and the new row's load is decided (`load_step`,
/// context `search_filter`); otherwise nothing else happens.
pub open spec fn after_list_search(
    old_key: Option<RomCacheKeyView>,
    mid: LibraryBrowseScreen,
    fin: LibraryBrowseScreen,
    d: DeferredChange,
) -> bool {
    if old_key != mid.selected_key() && mid.visible_list().len() > 0 {
        exists|cleared: LibraryBrowseScreen|
            #[trigger] LibraryBrowseScreen::clear_roms_post(mid, cleared) && load_step(
                cleared,
                fin,
                d,
                "search_filter"@,
            )
    } else {
        fin == mid && d is Keep
    }
}

/// After a list move left the screen at `mid`: when the list is not empty, the games are
/// cleared, the load is decided (`load_step`, context `ctx`) and, for collections, prefetching
/// is asked for; otherwise nothing else happens.
pub open spec fn after_list_move(
    mid: LibraryBrowseScreen,
    fin: LibraryBrowseScreen,
    d: DeferredChange,
    prefetch: bool,
    ctx: Seq<char>,
) -> bool {
    if mid.visible_list().len() > 0 {
        &&& exists|cleared: LibraryBrowseScreen|
            #[trigger] LibraryBrowseScreen::clear_roms_post(mid, cleared) && load_step(
                cleared,
                fin,
                d,
                ctx,
            )
        &&& prefetch == (mid.subsection == LibrarySubsection::ByCollection)
    } else {
        fin == mid && d is Keep && !prefetch
    }
}

/// What each command does (`o` before, `n` after, `r` the outcome).
pub open spec fn library_key_effect(
    o: LibraryBrowseScreen,
    n: LibraryBrowseScreen,
    r: LibraryKeyOutcome,
) -> bool {
    match r.command {
        LibraryCommand::ClearListSearch => r.exit is Stay && !r.prefetch && exists|
            mid: LibraryBrowseScreen,
        |
            #[trigger] LibraryBrowseScreen::clear_list_search_post(o, mid) && after_list_search(
                o.selected_key(),
                mid,
                n,
                r.deferred,
            ),
        LibraryCommand::DeleteListSearchChar => r.exit is Stay && !r.prefetch && exists|
            mid: LibraryBrowseScreen,
        |
            #[trigger] LibraryBrowseScreen::delete_list_search_char_post(o, mid)
                && after_list_search(o.selected_key(), mid, n, r.deferred),
        LibraryCommand::AddListSearchChar(c) => r.exit is Stay && !r.prefetch && exists|
            mid: LibraryBrowseScreen,
        |
            #[trigger] LibraryBrowseScreen::add_list_search_char_post(o, mid, c)
                && after_list_search(o.selected_key(), mid, n, r.deferred),
        LibraryCommand::ListJumpNext => r.exit is Stay && !r.prefetch && exists|
            mid: LibraryBrowseScreen,
        |
            #[trigger] LibraryBrowseScreen::list_jump_match_post(o, mid, true) && after_list_search(
                o.selected_key(),
                mid,
                n,
                r.deferred,
            ),
        LibraryCommand::CommitListFilter => r.exit is Stay && !r.prefetch && exists|
            mid: LibraryBrowseScreen,
        |
            #[trigger] LibraryBrowseScreen::commit_list_filter_bar_post(o, mid)
                && after_list_search(o.selected_key(), mid, n, r.deferred),
        LibraryCommand::ClearRomSearch => r.exit is Stay && !r.prefetch && r.deferred is Keep
            && LibraryBrowseScreen::clear_rom_search_post(o, n),
        LibraryCommand::DeleteRomSearchChar => r.exit is Stay && !r.prefetch && r.deferred is Keep
            && LibraryBrowseScreen::delete_rom_search_char_post(o, n),
        LibraryCommand::AddRomSearchChar(c) => r.exit is Stay && !r.prefetch && r.deferred is Keep
            && LibraryBrowseScreen::add_rom_search_char_post(o, n, c),
        LibraryCommand::RomJumpNext => r.exit is Stay && !r.prefetch && r.deferred is Keep
            && LibraryBrowseScreen::jump_rom_match_post(o, n, true),
        LibraryCommand::CommitRomFilter => r.exit is Stay && !r.prefetch && r.deferred is Keep
            && LibraryBrowseScreen::commit_rom_filter_bar_post(o, n),
        LibraryCommand::ListUp => r.exit is Stay && exists|mid: LibraryBrowseScreen|
            #[trigger] LibraryBrowseScreen::list_previous_post(o, mid) && after_list_move(
                mid,
                n,
                r.deferred,
                r.prefetch,
                "list_move_up"@,
            ),
        LibraryCommand::ListDown => r.exit is Stay && exists|mid: LibraryBrowseScreen|
            #[trigger] LibraryBrowseScreen::list_next_post(o, mid) && after_list_move(
                mid,
                n,
                r.deferred,
                r.prefetch,
                "list_move_down"@,
            ),
        LibraryCommand::RomUp => r.exit is Stay && !r.prefetch && r.deferred is Keep
            && LibraryBrowseScreen::rom_previous_post(o, n),
        LibraryCommand::RomDown => r.exit is Stay && !r.prefetch && r.deferred is Keep
            && LibraryBrowseScreen::rom_next_post(o, n),
        LibraryCommand::BackToList => r.exit is Stay && !r.prefetch && r.deferred is Keep
            && LibraryBrowseScreen::back_to_list_post(o, n),
        LibraryCommand::SwitchView => r.exit is Stay && !r.prefetch && r.deferred is Keep
            && LibraryBrowseScreen::switch_view_post(o, n),
        LibraryCommand::EnterListSearch(m) => r.exit is Stay && !r.prefetch && r.deferred is Keep
            && LibraryBrowseScreen::enter_list_search_post(o, n, m),
        LibraryCommand::EnterRomSearch(m) => r.exit is Stay && !r.prefetch && r.deferred is Keep
            && LibraryBrowseScreen::enter_rom_search_post(o, n, m),
        LibraryCommand::OpenSelectedGame => {
            &&& n == o
            &&& !r.prefetch
            &&& r.deferred is Keep
            &&& o.visible_games().len() == 0 <==> r.exit is Stay
            &&& r.exit matches LibraryExit::OpenGame(p, others) ==> ({
                let g = o.rom_groups.unwrap()@[o.visible_games()[o.selected_game_position()] as int];
                p == g.primary && others@ == g.others@
            })
        },
        LibraryCommand::SwitchSubsection => r.exit is Stay && exists|mid: LibraryBrowseScreen|
            #[trigger] LibraryBrowseScreen::switch_subsection_post(o, mid) && (if mid.view_mode
                == LibraryViewMode::List && mid.visible_list().len() > 0 {
                load_step(mid, n, r.deferred, "switch_subsection"@)
            } else {
                n == mid && r.deferred is Keep
            }) && r.prefetch == (mid.subsection == LibrarySubsection::ByCollection),
        LibraryCommand::BackToMenu => n == o && r.exit is BackToMenu && !r.prefetch
            && r.deferred is Keep,
        LibraryCommand::Quit => n == o && r.exit is Quit && !r.prefetch && r.deferred is Keep,
        LibraryCommand::Nothing => n == o && r.exit is Stay && !r.prefetch && r.deferred is Keep,
    }
}

fn load_change(lib: &mut LibraryBrowseScreen, ctx: &'static str) -> (d: DeferredChange)
    ensures
        load_step(*old(lib), *final(lib), d, ctx@),
{
    match load_selected_roms(lib, ctx) {
        Some(x) => DeferredChange::Replace(x),
        None => DeferredChange::Clear,
    }
}

fn after_search_command(lib: &mut LibraryBrowseScreen, old_key: &Option<RomCacheKey>) -> (d:
    DeferredChange)
    ensures
        after_list_search(opt_key_view(*old_key), *old(lib), *final(lib), d),
{
    let nk = lib.cache_key();
    if !same_opt_key(old_key, &nk) && lib.list_len() > 0 {
        let ghost mid = *lib;
        lib.clear_roms();
        let ghost cleared = *lib;
        let d = load_change(lib, "search_filter");
        assert(LibraryBrowseScreen::clear_roms_post(mid, cleared));
        d
    } else {
        DeferredChange::Keep
    }
}

fn after_move(lib: &mut LibraryBrowseScreen, ctx: &'static str) -> (r: (DeferredChange, bool))
    ensures
        after_list_move(*old(lib), *final(lib), r.0, r.1, ctx@),
{
    if lib.list_len() > 0 {
        let ghost mid = *lib;
        lib.clear_roms();
        let ghost cleared = *lib;
        let d = load_change(lib, ctx);
        assert(LibraryBrowseScreen::clear_roms_post(mid, cleared));
        (d, lib.subsection == LibrarySubsection::ByCollection)
    } else {
        (DeferredChange::Keep, false)
    }
}

fn outcome(command: LibraryCommand, deferred: DeferredChange, prefetch: bool) -> (r:
    LibraryKeyOutcome)
    ensures
        r.command == command,
        r.exit is Stay,
        r.deferred == deferred,
        r.prefetch == prefetch,
{
    LibraryKeyOutcome { command, exit: LibraryExit::Stay, deferred, prefetch }
}

/// The commands of an open list search bar.
pub open spec fn is_list_search_command(c: LibraryCommand) -> bool {
    c is ClearListSearch || c is DeleteListSearchChar || c is AddListSearchChar || c is ListJumpNext
        || c is CommitListFilter
}

#[verifier::rlimit(80)]
fn run_list_search_command(lib: &mut LibraryBrowseScreen, command: LibraryCommand) -> (r:
    LibraryKeyOutcome)
    requires
        is_list_search_command(command),
    ensures
        r.command == command,
        library_key_effect(*old(lib), *final(lib), r),
{
    let old_key = lib.cache_key();
    let ghost o = *lib;
    match command {
        LibraryCommand::ClearListSearch => lib.clear_list_search(),
        LibraryCommand::DeleteListSearchChar => lib.delete_list_search_char(),
        LibraryCommand::AddListSearchChar(c) => lib.add_list_search_char(c),
        LibraryCommand::ListJumpNext => {
            lib.list_jump_match(true);
            assert(LibraryBrowseScreen::list_jump_match_post(o, *lib, true));
        },
        _ => lib.commit_list_filter_bar(),
    }
    let deferred = after_search_command(lib, &old_key);
    outcome(command, deferred, false)
}

/// Commands that only change the screen.
pub open spec fn is_plain_command(c: LibraryCommand) -> bool {
    c is ClearRomSearch || c is DeleteRomSearchChar || c is AddRomSearchChar || c is RomJumpNext
        || c is CommitRomFilter || c is RomUp || c is RomDown || c is BackToList || c is SwitchView
        || c is EnterListSearch || c is EnterRomSearch
}

fn run_plain_command(lib: &mut LibraryBrowseScreen, command: LibraryCommand) -> (r:
    LibraryKeyOutcome)
    requires
        is_plain_command(command),
    ensures
        r.command == command,
        library_key_effect(*old(lib), *final(lib), r),
{
    match command {
        LibraryCommand::ClearRomSearch => lib.clear_rom_search(),
        LibraryCommand::DeleteRomSearchChar => lib.delete_rom_search_char(),
        LibraryCommand::AddRomSearchChar(c) => lib.add_rom_search_char(c),
        LibraryCommand::RomJumpNext => lib.jump_rom_match(true),
        LibraryCommand::CommitRomFilter => lib.commit_rom_filter_bar(),
        LibraryCommand::RomUp => lib.rom_previous(),
        LibraryCommand::RomDown => lib.rom_next(),
        LibraryCommand::BackToList => lib.back_to_list(),
        LibraryCommand::SwitchView => lib.switch_view(),
        LibraryCommand::EnterListSearch(m) => lib.enter_list_search(m),
        LibraryCommand::EnterRomSearch(m) => lib.enter_rom_search(m),
        _ => {},
    }
    outcome(command, DeferredChange::Keep, false)
}

fn run_list_move(lib: &mut LibraryBrowseScreen, command: LibraryCommand) -> (r: LibraryKeyOutcome)
    requires
        command is ListUp || command is ListDown,
    ensures
        r.command == command,
        library_key_effect(*old(lib), *final(lib), r),
{
    if command == LibraryCommand::ListUp {
        lib.list_previous();
        let (d, p) = after_move(lib, "list_move_up");
        outcome(command, d, p)
    } else {
        lib.list_next();
        let (d, p) = after_move(lib, "list_move_down");
        outcome(command, d, p)
    }
}

fn run_switch_subsection(lib: &mut LibraryBrowseScreen) -> (r: LibraryKeyOutcome)
    ensures
        r.command == LibraryCommand::SwitchSubsection,
        library_key_effect(*old(lib), *final(lib), r),
{
    lib.switch_subsection();
    let deferred = if lib.view_mode == LibraryViewMode::List && lib.list_len() > 0 {
        load_change(lib, "switch_subsection")
    } else {
        DeferredChange::Keep
    };
    let prefetch = lib.subsection == LibrarySubsection::ByCollection;
    outcome(LibraryCommand::SwitchSubsection, deferred, prefetch)
}

/// Handle `key` on the library screen (see `command_for` and `library_key_effect`).
pub fn handle_library_browse_key(lib: &mut LibraryBrowseScreen, key: KeyCode) -> (r:
    LibraryKeyOutcome)
    ensures
        r.command == command_for(*old(lib), key),
        library_key_effect(*old(lib), *final(lib), r),
{
    let command = decide_library_command(lib, key);
    match command {
        LibraryCommand::ClearListSearch | LibraryCommand::DeleteListSearchChar
        | LibraryCommand::AddListSearchChar(_) | LibraryCommand::ListJumpNext
        | LibraryCommand::CommitListFilter => run_list_search_command(lib, command),
        LibraryCommand::ListUp | LibraryCommand::ListDown => run_list_move(lib, command),
        LibraryCommand::OpenSelectedGame => {
            let exit = match lib.get_selected_group() {
                Some((p, others)) => LibraryExit::OpenGame(p, others),
                None => LibraryExit::Stay,
            };
            LibraryKeyOutcome { command, exit, deferred: DeferredChange::Keep, prefetch: false }
        },
        LibraryCommand::SwitchSubsection => run_switch_subsection(lib),
        LibraryCommand::BackToMenu => {
            LibraryKeyOutcome {
                command,
                exit: LibraryExit::BackToMenu,
                deferred: DeferredChange::Keep,
                prefetch: false,
            }
        },
        LibraryCommand::Quit => {
            LibraryKeyOutcome {
                command,
                exit: LibraryExit::Quit,
                deferred: DeferredChange::Keep,
                prefetch: false,
            }
        },
        LibraryCommand::Nothing => outcome(command, DeferredChange::Keep, false),
        _ => run_plain_command(lib, command),
    }
}


/// What a Ctrl+R or Ctrl+U press does before the screen's own keys are looked at.
#[derive(Debug, Clone, Copy, PartialEq, Eq, Structural)]
pub enum LibraryChord {
    /// Not one of these chords (or chords are blocked): handle the key as usual.
    NotChord,
    /// The chord is used up and nothing happens.
    Consumed,
    /// Start a rescan of every platform's library.
    Rescan,
    /// The upload prompt was opened.
    OpenedUploadPrompt,
    /// The upload prompt was closed.
    ClosedUploadPrompt,
    /// Uploading needs the consoles view; the footer says so.
    UploadNeedsConsoles,
}

/// The key is Ctrl with `c` or its upper case.
pub open spec fn is_ctrl_chord(key: KeyPress, lower: char, upper: char) -> bool {
    key.is_press && key.ctrl && (key.code == KeyCode::Char(lower) || key.code == KeyCode::Char(upper))
}

/// Ctrl+R and Ctrl+U on the library screen. `on_library` says whether the library screen is
/// shown (`lib` is only looked at then); `upload_inflight` and `scan_inflight` say whether an
/// upload or a rescan is running. Ctrl+R starts a rescan when no search bar or upload prompt is
/// open and nothing is running; Ctrl+U closes an open upload prompt, or opens one in the
/// consoles view (in the collections view the footer asks to switch). Other keys, and any key
/// while chords are blocked, are left alone.
pub fn library_chord(
    lib: &mut LibraryBrowseScreen,
    key: &KeyPress,
    chords_blocked: bool,
    on_library: bool,
    upload_inflight: bool,
    scan_inflight: bool,
) -> (r: LibraryChord)
    ensures
        if chords_blocked || !(is_ctrl_chord(*key, 'r', 'R') || is_ctrl_chord(*key, 'u', 'U')) {
            r is NotChord && *final(lib) == *old(lib)
        } else if is_ctrl_chord(*key, 'r', 'R') {
            *final(lib) == *old(lib) && r == if on_library && !(old(lib).list_search.mode is Some
                || old(lib).rom_search.mode is Some) && !old(lib).upload_prompt_open
                && !upload_inflight && !scan_inflight {
                LibraryChord::Rescan
            } else {
                LibraryChord::Consumed
            }
        } else if !on_library {
            r is Consumed && *final(lib) == *old(lib)
        } else if old(lib).upload_prompt_open {
            r is ClosedUploadPrompt && *final(lib) == (LibraryBrowseScreen {
                upload_prompt_open: false,
                ..*old(lib)
            })
        } else if (old(lib).list_search.mode is Some || old(lib).rom_search.mode is Some)
            || upload_inflight || scan_inflight {
            r is Consumed && *final(lib) == *old(lib)
        } else if old(lib).subsection == LibrarySubsection::ByConsole {
            r is OpenedUploadPrompt && *final(lib) == (LibraryBrowseScreen {
                upload_prompt_open: true,
                ..*old(lib)
            })
        } else {
            &&& r is UploadNeedsConsoles
            &&& final(lib).metadata_footer matches Some(m) && m@
                == "Upload requires Consoles view — press t"@
            &&& *final(lib) == (LibraryBrowseScreen {
                metadata_footer: final(lib).metadata_footer,
                ..*old(lib)
            })
        },
{
    let rescan = key.is_press && key.ctrl && (key.code == KeyCode::Char('r') || key.code
        == KeyCode::Char('R'));
    let upload = key.is_press && key.ctrl && (key.code == KeyCode::Char('u') || key.code
        == KeyCode::Char('U'));
    if chords_blocked || !(rescan || upload) {
        return LibraryChord::NotChord;
    }
    if rescan {
        if on_library && !lib.any_search_bar_open() && !lib.any_upload_prompt_open()
            && !upload_inflight && !scan_inflight {
            return LibraryChord::Rescan;
        }
        return LibraryChord::Consumed;
    }
    if !on_library {
        return LibraryChord::Consumed;
    }
    if lib.any_upload_prompt_open() {
        lib.close_upload_prompt();
        LibraryChord::ClosedUploadPrompt
    } else if lib.any_search_bar_open() || upload_inflight || scan_inflight {
        LibraryChord::Consumed
    } else if lib.subsection == LibrarySubsection::ByConsole {
        lib.open_upload_prompt();
        LibraryChord::OpenedUploadPrompt
    } else {
        lib.set_metadata_footer(Some(crate::text::string_of("Upload requires Consoles view — press t")));
        LibraryChord::UploadNeedsConsoles
    }
}

} // verus!
