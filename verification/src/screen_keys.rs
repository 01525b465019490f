//! Keys on the main menu, the search screen, the API browser and the request editor; the
//! library's opening state; and the main loop's handling of a pending ROM load.

use vstd::prelude::*;
use crate::browse::{BrowseScreen, ViewMode};
use crate::execute::ExecuteScreen;
use crate::keys::KeyCode;
use crate::library_browse::LibraryBrowseScreen;
use crate::loading::{load_for_selection, selected_request, DeferredRomLoad, selected_rom_request_for_library};
use crate::main_menu::MainMenuScreen;
use crate::openapi::{
    copy_endpoint, resolve_path_template, substitute_params, ApiEndpoint, OpenApiError,
    OpenApiErrorView,
};
use crate::execute::{filled, pairs_view};
use crate::requests::GetRoms;
use crate::search::SearchScreen;
use crate::text::{byte_len, on_char_boundary, string_of};
use crate::types::{Rom, RomList};
use crate::cache::{opt_key_view, same_opt_key, RomCacheKey};

verus! {

// ---------------------------------------------------------------------------
// Main menu
// ---------------------------------------------------------------------------

/// Where a main menu key leads.
#[derive(Debug, Clone, Copy, PartialEq, Eq, Structural)]
pub enum MainMenuAction {
    Stay,
    OpenLibrary,
    OpenSearch,
    OpenDownloads,
    OpenSettings,
    Quit,
}

/// Enter on a menu entry: library, search, downloads, settings; the fifth entry quits, the
/// sixth does nothing.
pub open spec fn menu_entry_action(selected: usize) -> MainMenuAction {
    if selected == 0 {
        MainMenuAction::OpenLibrary
    } else if selected == 1 {
        MainMenuAction::OpenSearch
    } else if selected == 2 {
        MainMenuAction::OpenDownloads
    } else if selected == 3 {
        MainMenuAction::OpenSettings
    } else if selected == 4 {
        MainMenuAction::Quit
    } else {
        MainMenuAction::Stay
    }
}

/// Handle a key on the main menu: Up/k and Down/j move, Enter opens the entry, Esc/q quit.
pub fn handle_main_menu_key(menu: &mut MainMenuScreen, key: KeyCode) -> (a: MainMenuAction)
    requires
        old(menu).selected < usize::MAX,
    ensures
        match key {
            KeyCode::Up | KeyCode::Char('k') => MainMenuScreen::previous_post(*old(menu), *final(menu))
                && a == MainMenuAction::Stay,
            KeyCode::Down | KeyCode::Char('j') => MainMenuScreen::next_post(*old(menu), *final(menu))
                && a == MainMenuAction::Stay,
            KeyCode::Enter => *final(menu) == *old(menu) && a == menu_entry_action(
                old(menu).selected,
            ),
            KeyCode::Esc | KeyCode::Char('q') => *final(menu) == *old(menu) && a
                == MainMenuAction::Quit,
            _ => *final(menu) == *old(menu) && a == MainMenuAction::Stay,
        },
{
    match key {
        KeyCode::Up | KeyCode::Char('k') => {
            menu.previous();
            MainMenuAction::Stay
        },
        KeyCode::Down | KeyCode::Char('j') => {
            menu.next();
            MainMenuAction::Stay
        },
        KeyCode::Enter => {
            let s = menu.selected;
            if s == 0 {
                MainMenuAction::OpenLibrary
            } else if s == 1 {
                MainMenuAction::OpenSearch
            } else if s == 2 {
                MainMenuAction::OpenDownloads
            } else if s == 3 {
                MainMenuAction::OpenSettings
            } else if s == 4 {
                MainMenuAction::Quit
            } else {
                MainMenuAction::Stay
            }
        },
        KeyCode::Esc | KeyCode::Char('q') => MainMenuAction::Quit,
        _ => MainMenuAction::Stay,
    }
}

/// The library as it opens: a footer says metadata is being refreshed (lists from the disk
/// snapshot) or loaded (no lists yet); with rows, the first row's games are marked loading
/// when it has any, and its load is queued.
pub fn open_library(lib: &mut LibraryBrowseScreen, from_disk: bool) -> (d: Option<
    DeferredRomLoad,
>)
    ensures
        ({
            let n = old(lib).visible_list().len();
            let footer = if from_disk && n > 0 {
                Some("Refreshing library metadata in background…"@)
            } else if n == 0 {
                Some("Loading library metadata…"@)
            } else {
                None
            };
            &&& match footer {
                Some(f) => final(lib).metadata_footer matches Some(m) && m@ == f,
                None => final(lib).metadata_footer == old(lib).metadata_footer,
            }
            &&& *final(lib) == (LibraryBrowseScreen {
                metadata_footer: final(lib).metadata_footer,
                rom_loading: if n > 0 {
                    old(lib).selected_expected() > 0
                } else {
                    old(lib).rom_loading
                },
                ..*old(lib)
            })
            &&& (n > 0 <==> d is Some)
            &&& d matches Some(x) ==> load_for_selection(*old(lib), x) && x.context@
                == "startup_first_selection"@
        }),
{
    let n = lib.list_len();
    if from_disk && n > 0 {
        lib.set_metadata_footer(Some(string_of("Refreshing library metadata in background…")));
    } else if n == 0 {
        lib.set_metadata_footer(Some(string_of("Loading library metadata…")));
    }
    if n > 0 {
        let key = lib.cache_key();
        let expected = lib.expected_rom_count();
        let request = selected_rom_request_for_library(lib);
        lib.set_rom_loading(expected > 0);
        Some(DeferredRomLoad { key, request, expected, context: "startup_first_selection" })
    } else {
        None
    }
}

// ---------------------------------------------------------------------------
// Search screen
// ---------------------------------------------------------------------------

/// Where a search screen key leads.
pub enum SearchAction {
    Stay,
    /// Open the detail screen of this game.
    OpenGame(Rom, Vec<Rom>),
    /// Run this search in the background.
    RunSearch(GetRoms),
    BackToMenu,
}

/// The request a search runs: the query as search term, at most 50 results, nothing else.
pub open spec fn is_search_request(r: GetRoms, query: Seq<char>) -> bool {
    &&& r.search_term matches Some(t) && t@ == query
    &&& r.limit == Some(50u32)
    &&& r.platform_id is None && r.collection_id is None && r.smart_collection_id is None
    &&& r.virtual_collection_id is None && r.offset is None
}

/// The edits a key makes must keep the query's cursor on character boundaries (editing
/// elsewhere would split a character, which `String` refuses).
pub open spec fn search_key_allowed(s: SearchScreen, key: KeyCode) -> bool {
    &&& key matches KeyCode::Char(_) ==> on_char_boundary(s.query@, s.insert_at() as int)
        && s.insert_at() < usize::MAX
    &&& key == KeyCode::Backspace && 0 < s.cursor_pos <= byte_len(s.query@) ==> on_char_boundary(
        s.query@,
        s.cursor_pos - 1,
    )
}

/// Handle a key on the search screen: Backspace/Left/Right edit and move the cursor,
/// Up/Down move in the results, characters type. Enter on a non-empty query opens the selected
/// game when the results were fetched for this very query, and runs the search otherwise. Esc
/// clears the results, or leaves when there are none.
pub fn handle_search_key(search: &mut SearchScreen, key: KeyCode) -> (a: SearchAction)
    requires
        search_key_allowed(*old(search), key),
    ensures
        match key {
            KeyCode::Backspace => SearchScreen::delete_char_post(*old(search), *final(search))
                && a is Stay,
            KeyCode::Left => SearchScreen::cursor_left_post(*old(search), *final(search))
                && a is Stay,
            KeyCode::Right => SearchScreen::cursor_right_post(*old(search), *final(search))
                && a is Stay,
            KeyCode::Up => SearchScreen::previous_post(*old(search), *final(search)) && a is Stay,
            KeyCode::Down => SearchScreen::next_post(*old(search), *final(search)) && a is Stay,
            KeyCode::Char(c) => SearchScreen::add_char_post(*old(search), *final(search), c)
                && a is Stay,
            KeyCode::Enter => {
                &&& *final(search) == *old(search)
                &&& if old(search).query@.len() == 0 {
                    a is Stay
                } else if old(search).result_groups is Some && (old(
                    search,
                ).last_searched_query matches Some(q) && q@ == old(search).query@) {
                    &&& (old(search).selected < old(search).group_count()) <==> a is OpenGame
                    &&& a matches SearchAction::OpenGame(p, others) ==> p == old(
                        search,
                    ).result_groups.unwrap()@[old(search).selected as int].primary && others@ == old(
                        search,
                    ).result_groups.unwrap()@[old(search).selected as int].others@
                } else {
                    a matches SearchAction::RunSearch(r) && is_search_request(r, old(search).query@)
                }
            },
            KeyCode::Esc => if old(search).results is Some {
                SearchScreen::clear_results_post(*old(search), *final(search)) && a is Stay
            } else {
                *final(search) == *old(search) && a is BackToMenu
            },
            _ => *final(search) == *old(search) && a is Stay,
        },
{
    match key {
        KeyCode::Backspace => {
            search.delete_char();
            SearchAction::Stay
        },
        KeyCode::Left => {
            search.cursor_left();
            SearchAction::Stay
        },
        KeyCode::Right => {
            search.cursor_right();
            SearchAction::Stay
        },
        KeyCode::Up => {
            search.previous();
            SearchAction::Stay
        },
        KeyCode::Down => {
            search.next();
            SearchAction::Stay
        },
        KeyCode::Char(c) => {
            search.add_char(c);
            SearchAction::Stay
        },
        KeyCode::Enter => {
            if search.query.as_str().is_empty() {
                SearchAction::Stay
            } else if search.result_groups.is_some() && search.results_match_current_query() {
                match search.get_selected_group() {
                    Some((p, others)) => SearchAction::OpenGame(p, others),
                    None => SearchAction::Stay,
                }
            } else {
                SearchAction::RunSearch(
                    GetRoms {
                        search_term: Some(search.query.clone()),
                        platform_id: None,
                        collection_id: None,
                        smart_collection_id: None,
                        virtual_collection_id: None,
                        limit: Some(50),
                        offset: None,
                    },
                )
            }
        },
        KeyCode::Esc => {
            if search.results.is_some() {
                search.clear_results();
                SearchAction::Stay
            } else {
                SearchAction::BackToMenu
            }
        },
        _ => SearchAction::Stay,
    }
}

// ---------------------------------------------------------------------------
// API browser and request editor
// ---------------------------------------------------------------------------

/// Where an API browser key leads.
pub enum BrowseAction {
    Stay,
    /// Edit a request for this endpoint.
    Execute(ApiEndpoint),
    BackToMenu,
}

/// Handle a key on the API browser: Up/k and Down/j move; Left/h (endpoints pane), Right/l
/// (sections pane) and Tab switch panes; Enter opens the selected endpoint (endpoints pane) or
/// switches to the endpoints; Esc leaves.
pub fn handle_browse_key(browse: &mut BrowseScreen, key: KeyCode) -> (a: BrowseAction)
    requires
        old(browse).selected_section < usize::MAX,
        old(browse).selected_endpoint < usize::MAX,
    ensures
        match key {
            KeyCode::Up | KeyCode::Char('k') => BrowseScreen::previous_post(
                *old(browse),
                *final(browse),
            ) && a is Stay,
            KeyCode::Down | KeyCode::Char('j') => BrowseScreen::next_post(
                *old(browse),
                *final(browse),
            ) && a is Stay,
            KeyCode::Left | KeyCode::Char('h') => a is Stay && if old(browse).view_mode
                == ViewMode::Endpoints {
                BrowseScreen::switch_view_post(*old(browse), *final(browse))
            } else {
                *final(browse) == *old(browse)
            },
            KeyCode::Right | KeyCode::Char('l') => a is Stay && if old(browse).view_mode
                == ViewMode::Sections {
                BrowseScreen::switch_view_post(*old(browse), *final(browse))
            } else {
                *final(browse) == *old(browse)
            },
            KeyCode::Tab => BrowseScreen::switch_view_post(*old(browse), *final(browse))
                && a is Stay,
            KeyCode::Enter => if old(browse).view_mode == ViewMode::Endpoints {
                &&& *final(browse) == *old(browse)
                &&& match a {
                    BrowseAction::Execute(e) => {
                        let s = old(browse);
                        &&& s.selected_section < s.sections@.len()
                        &&& s.selected_endpoint < s.section_size()
                        &&& ({
                            let idx = s.sections@[s.selected_section as int].endpoint_indices@[s.selected_endpoint as int];
                            idx < s.registry.endpoints@.len() && e@ == s.registry.endpoints@[idx as int]@
                        })
                    },
                    BrowseAction::Stay => {
                        let s = old(browse);
                        !(s.selected_section < s.sections@.len() && s.selected_endpoint
                            < s.section_size() && s.sections@[s.selected_section as int].endpoint_indices@[s.selected_endpoint as int]
                            < s.registry.endpoints@.len())
                    },
                    BrowseAction::BackToMenu => false,
                }
            } else {
                BrowseScreen::switch_view_post(*old(browse), *final(browse)) && a is Stay
            },
            KeyCode::Esc => *final(browse) == *old(browse) && a is BackToMenu,
            _ => *final(browse) == *old(browse) && a is Stay,
        },
{
    match key {
        KeyCode::Up | KeyCode::Char('k') => {
            browse.previous();
            BrowseAction::Stay
        },
        KeyCode::Down | KeyCode::Char('j') => {
            browse.next();
            BrowseAction::Stay
        },
        KeyCode::Left | KeyCode::Char('h') => {
            if browse.view_mode == ViewMode::Endpoints {
                browse.switch_view();
            }
            BrowseAction::Stay
        },
        KeyCode::Right | KeyCode::Char('l') => {
            if browse.view_mode == ViewMode::Sections {
                browse.switch_view();
            }
            BrowseAction::Stay
        },
        KeyCode::Tab => {
            browse.switch_view();
            BrowseAction::Stay
        },
        KeyCode::Enter => {
            if browse.view_mode == ViewMode::Endpoints {
                match browse.get_selected_endpoint() {
                    Some(ep) => BrowseAction::Execute(copy_endpoint(ep)),
                    None => BrowseAction::Stay,
                }
            } else {
                browse.switch_view();
                BrowseAction::Stay
            }
        },
        KeyCode::Esc => BrowseAction::BackToMenu,
        _ => BrowseAction::Stay,
    }
}

/// Where a request editor key leads.
#[derive(Debug, Clone, Copy, PartialEq, Eq, Structural)]
pub enum ExecuteAction {
    Stay,
    /// Send the request.
    Submit,
    /// Back to the API browser.
    BackToBrowse,
}

/// Handle a key on the request editor: Tab/BackTab move the focus, characters and Backspace
/// edit the focused input, Enter submits, Esc goes back.
pub fn handle_execute_key(exec: &mut ExecuteScreen, key: KeyCode) -> (a: ExecuteAction)
    ensures
        match key {
            KeyCode::Tab => ExecuteScreen::next_field_post(*old(exec), *final(exec)) && a
                == ExecuteAction::Stay,
            KeyCode::BackTab => ExecuteScreen::previous_field_post(*old(exec), *final(exec)) && a
                == ExecuteAction::Stay,
            KeyCode::Char(c) => ExecuteScreen::add_char_to_focused_post(*old(exec), *final(exec), c)
                && a == ExecuteAction::Stay,
            KeyCode::Backspace => ExecuteScreen::delete_char_from_focused_post(
                *old(exec),
                *final(exec),
            ) && a == ExecuteAction::Stay,
            KeyCode::Enter => *final(exec) == *old(exec) && a == ExecuteAction::Submit,
            KeyCode::Esc => *final(exec) == *old(exec) && a == ExecuteAction::BackToBrowse,
            _ => *final(exec) == *old(exec) && a == ExecuteAction::Stay,
        },
{
    match key {
        KeyCode::Tab => {
            exec.next_field();
            ExecuteAction::Stay
        },
        KeyCode::BackTab => {
            exec.previous_field();
            ExecuteAction::Stay
        },
        KeyCode::Char(c) => {
            exec.add_char_to_focused(c);
            ExecuteAction::Stay
        },
        KeyCode::Backspace => {
            exec.delete_char_from_focused();
            ExecuteAction::Stay
        },
        KeyCode::Enter => ExecuteAction::Submit,
        KeyCode::Esc => ExecuteAction::BackToBrowse,
        _ => ExecuteAction::Stay,
    }
}

/// A request ready to send: method, resolved path, query parameters, and whether the body text
/// goes along (it is parsed as JSON by the sender).
pub struct RequestPlan {
    pub method: String,
    pub path: String,
    pub query: Vec<(String, String)>,
    pub send_body: bool,
}

/// The request the editor describes: the path template filled with the non-empty path
/// parameters, the non-empty query parameters, and the body when the endpoint takes one and it
/// is not empty. A path with placeholders left is an error.
pub fn submit_plan(exec: &ExecuteScreen) -> (r: Result<RequestPlan, OpenApiError>)
    ensures
        match r {
            Ok(p) => {
                &&& p.method@ == exec.endpoint.method@
                &&& pairs_view(p.query@) == filled(pairs_view(exec.query_params@))
                &&& p.send_body == (exec.endpoint.has_body && exec.body_text@.len() > 0)
                &&& exists|vals: Seq<(String, String)>|
                    pairs_view(vals) == filled(pairs_view(exec.path_params@)) && p.path@
                        == #[trigger] substitute_params(exec.endpoint.path@, vals) && !p.path@.contains('{')
            },
            Err(e) => exists|vals: Seq<(String, String)>|
                pairs_view(vals) == filled(pairs_view(exec.path_params@))
                    && #[trigger] substitute_params(exec.endpoint.path@, vals).contains('{') && e@
                    == OpenApiErrorView::UnresolvedPlaceholders(exec.endpoint.path@),
        },
{
    let path_vals = exec.get_path_params();
    let resolved = resolve_path_template(exec.endpoint.path.as_str(), path_vals.as_slice());
    match resolved {
        Ok(path) => {
            let query = exec.get_query_params();
            let send_body = exec.endpoint.has_body && !exec.body_text.as_str().is_empty();
            assert(substitute_params(exec.endpoint.path@, path_vals@) == substitute_params(
                exec.endpoint.path@,
                path_vals@,
            ));
            Ok(RequestPlan { method: string_of(exec.endpoint.method.as_str()), path, query, send_body })
        },
        Err(e) => {
            assert(substitute_params(exec.endpoint.path@, path_vals@).contains('{'));
            Err(e)
        },
    }
}

// ---------------------------------------------------------------------------
// Pending ROM load in the main loop
// ---------------------------------------------------------------------------

/// How long a pending network load waits for the selection to settle, in nanoseconds.
pub const LOAD_DEBOUNCE_NANOS: u128 = 250_000_000;

/// What the main loop does with the pending ROM load.
#[derive(Debug, Clone, Copy, PartialEq, Eq, Structural)]
pub enum DeferredStep {
    /// The cached list is valid: show it now.
    UseCached,
    /// Keep waiting (the selection may still move).
    Wait,
    /// Nothing to fetch: the games pane is idle. `gen` is the new load generation.
    Idle { gen: u64 },
    /// Fetch in the background under generation `gen`.
    Fetch { gen: u64 },
}

/// Decide the pending load: a valid cached list wins; within the debounce time it waits;
/// otherwise a new generation starts and the list is fetched when the row has games and a
/// request.
pub fn deferred_load_step(
    d: &DeferredRomLoad,
    cache_valid: bool,
    elapsed_nanos: u128,
    rom_load_gen: u64,
) -> (s: DeferredStep)
    ensures
        s == (if d.key is Some && cache_valid {
            DeferredStep::UseCached
        } else if elapsed_nanos < LOAD_DEBOUNCE_NANOS {
            DeferredStep::Wait
        } else {
            let gen = if rom_load_gen == u64::MAX {
                u64::MAX
            } else {
                (rom_load_gen + 1) as u64
            };
            if d.expected == 0 || d.request is None {
                DeferredStep::Idle { gen }
            } else {
                DeferredStep::Fetch { gen }
            }
        }),
{
    if d.key.is_some() && cache_valid {
        return DeferredStep::UseCached;
    }
    if elapsed_nanos < LOAD_DEBOUNCE_NANOS {
        return DeferredStep::Wait;
    }
    let gen = rom_load_gen.saturating_add(1);
    if d.expected == 0 || d.request.is_none() {
        DeferredStep::Idle { gen }
    } else {
        DeferredStep::Fetch { gen }
    }
}

/// Show a valid cached list for the pending load: the games appear and loading ends.
pub fn apply_cached_roms(lib: &mut LibraryBrowseScreen, cached: RomList)
    ensures
        final(lib).roms == Some(cached),
        final(lib).rom_groups matches Some(g) && crate::rom_group::groups_of(cached.items@, g@),
        final(lib).rom_selected == 0,
        !final(lib).rom_loading,
        final(lib).list_index == old(lib).list_index,
        final(lib).subsection == old(lib).subsection,
{
    lib.set_roms(cached);
    lib.set_rom_loading(false);
}

/// What the main loop does after one step of the pending ROM load.
pub enum DeferredLoadAction {
    /// Still within the debounce time: keep this load pending.
    Wait(DeferredRomLoad),
    /// A valid cached list was found: it is shown if the selection still asks for it.
    CacheUsed,
    /// Nothing to fetch. `gen` is the new load generation.
    Idle { gen: u64 },
    /// Fetch `request` in the background under generation `gen`; the result is tagged with
    /// `key` and `expected`.
    Fetch { key: Option<RomCacheKey>, request: GetRoms, expected: u64, gen: u64 },
}

/// One step of the pending ROM load, given what the disk cache holds for it (`cached`: a
/// valid list for its key, `None` on a miss or when it has no key), the time since it was
/// queued and the current load generation. A cached list is shown only while the library
/// still has that row selected; either way loading ends. Within the debounce time the load
/// stays pending. Otherwise a new generation starts: the games pane shows loading exactly when
/// there is something to fetch (games expected and a request).
pub fn step_deferred_load(
    lib: &mut LibraryBrowseScreen,
    pending: DeferredRomLoad,
    cached: Option<RomList>,
    elapsed_nanos: u128,
    rom_load_gen: u64,
) -> (a: DeferredLoadAction)
    ensures
        ({
            let gen = if rom_load_gen == u64::MAX {
                u64::MAX
            } else {
                (rom_load_gen + 1) as u64
            };
            if pending.key is Some && cached is Some {
                &&& a is CacheUsed
                &&& if opt_key_view(pending.key) == old(lib).selected_key() {
                    &&& final(lib).roms == Some(cached->0)
                    &&& final(lib).rom_groups matches Some(g) && crate::rom_group::groups_of(
                        cached->0.items@,
                        g@,
                    )
                    &&& final(lib).rom_selected == 0
                    &&& !final(lib).rom_loading
                    &&& final(lib).list_index == old(lib).list_index
                    &&& final(lib).subsection == old(lib).subsection
                } else {
                    *final(lib) == (LibraryBrowseScreen { rom_loading: false, ..*old(lib) })
                }
            } else if elapsed_nanos < LOAD_DEBOUNCE_NANOS {
                a == DeferredLoadAction::Wait(pending) && *final(lib) == *old(lib)
            } else if pending.expected == 0 || pending.request is None {
                a == DeferredLoadAction::Idle { gen } && *final(lib) == (LibraryBrowseScreen {
                    rom_loading: false,
                    ..*old(lib)
                })
            } else {
                &&& a == (DeferredLoadAction::Fetch {
                    key: pending.key,
                    request: pending.request->0,
                    expected: pending.expected,
                    gen,
                })
                &&& *final(lib) == (LibraryBrowseScreen { rom_loading: true, ..*old(lib) })
            }
        }),
{
    let step = deferred_load_step(&pending, cached.is_some(), elapsed_nanos, rom_load_gen);
    match step {
        DeferredStep::UseCached => {
            let list = match cached {
                Some(l) => l,
                None => {
                    return DeferredLoadAction::CacheUsed;
                },
            };
            let current = lib.cache_key();
            if same_opt_key(&current, &pending.key) {
                apply_cached_roms(lib, list);
            } else {
                lib.set_rom_loading(false);
            }
            DeferredLoadAction::CacheUsed
        },
        DeferredStep::Wait => DeferredLoadAction::Wait(pending),
        DeferredStep::Idle { gen } => {
            lib.set_rom_loading(false);
            DeferredLoadAction::Idle { gen }
        },
        DeferredStep::Fetch { gen } => {
            lib.set_rom_loading(true);
            match pending.request {
                Some(request) => DeferredLoadAction::Fetch {
                    key: pending.key,
                    request,
                    expected: pending.expected,
                    gen,
                },
                None => DeferredLoadAction::Idle { gen },
            }
        },
    }
}

} // verus!
