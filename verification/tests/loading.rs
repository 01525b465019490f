use romm_tui::screen_keys::{step_deferred_load, DeferredLoadAction};
use romm_tui::cache::RomCacheKey;
use romm_tui::library_browse::LibraryBrowseScreen;
use romm_tui::loading::{
    apply_rom_load_result, load_selected_roms, metadata_refresh_footer, next_page_request, DeferredRomLoad,
    primary_rom_load_result_is_current, PrefetchScheduler,
};
use romm_tui::requests::GetRoms;
use romm_tui::types::{Platform, RomList};

fn platform(id: u64, name: &str, rom_count: u64) -> Platform {
    Platform {
        id,
        slug: format!("p{id}"),
        fs_slug: format!("p{id}"),
        rom_count,
        name: name.to_string(),
        igdb_slug: None,
        moby_slug: None,
        hltb_slug: None,
        custom_name: None,
        igdb_id: None,
        sgdb_id: None,
        moby_id: None,
        launchbox_id: None,
        ss_id: None,
        ra_id: None,
        hasheous_id: None,
        tgdb_id: None,
        flashpoint_id: None,
        category: None,
        generation: None,
        family_name: None,
        family_slug: None,
        url: None,
        url_logo: None,
        firmware: vec![],
        aspect_ratio: None,
        created_at: String::new(),
        updated_at: String::new(),
        fs_size_bytes: 0,
        is_unidentified: false,
        is_identified: true,
        missing_from_fs: false,
        display_name: None,
    }
}

#[test]
fn primary_rom_load_stale_gen_is_ignored() {
    assert!(!primary_rom_load_result_is_current(1, 2));
    assert!(primary_rom_load_result_is_current(3, 3));
}

#[test]
fn zero_rom_selection_queues_no_load() {
    let mut lib = LibraryBrowseScreen::new(vec![platform(1, "Empty", 0)], vec![]);
    let d = load_selected_roms(&mut lib, "list_move_down");
    assert!(d.is_none());
    assert!(!lib.rom_loading);
}

#[test]
fn selection_with_games_queues_its_request() {
    let mut lib = LibraryBrowseScreen::new(vec![platform(7, "SNES", 12)], vec![]);
    let d = load_selected_roms(&mut lib, "list_move_down").expect("load");
    assert!(lib.rom_loading);
    assert_eq!(d.expected, 12);
    assert_eq!(d.key, Some(RomCacheKey::Platform(7)));
    assert_eq!(d.request.and_then(|r| r.platform_id), Some(7));
    assert_eq!(d.context, "list_move_down");
}

#[test]
fn stale_result_is_ignored_and_errors_reach_the_footer() {
    let mut lib = LibraryBrowseScreen::new(vec![platform(7, "SNES", 12)], vec![]);
    lib.rom_loading = true;
    let page = RomList { items: vec![], total: 0, limit: 50, offset: 0 };
    assert!(!apply_rom_load_result(&mut lib, 1, 2, Ok(page)));
    assert!(lib.rom_loading);
    assert!(apply_rom_load_result(&mut lib, 2, 2, Err("boom".to_string())));
    assert!(!lib.rom_loading);
    assert_eq!(lib.metadata_footer.as_deref(), Some("Could not load games: boom"));
}

#[test]
fn paging_stops_at_total_and_ceiling() {
    let req = GetRoms { platform_id: Some(3), limit: Some(100), ..Default::default() };
    let next = next_page_request(&req, 100, 250).expect("more");
    assert_eq!(next.offset, Some(100));
    assert_eq!(next.platform_id, Some(3));
    assert!(next_page_request(&req, 250, 250).is_none());
    assert!(next_page_request(&req, 20000, 50000).is_none());
}

#[test]
fn refresh_footer_joins_and_truncates_warnings() {
    assert_eq!(metadata_refresh_footer(&[], true), "Collection metadata updated.");
    assert_eq!(
        metadata_refresh_footer(&[], false),
        "Collection metadata already up to date."
    );
    let w = vec!["a".to_string(), "b".to_string()];
    assert_eq!(metadata_refresh_footer(&w, false), "Partial refresh: a | b");
    let long = vec!["x".repeat(200)];
    let f = metadata_refresh_footer(&long, false);
    assert_eq!(f.chars().count(), "Partial refresh: ".len() + 158);
    assert!(f.ends_with('…'));
}

#[test]
fn prefetch_queue_is_lifo_with_two_running_at_most() {
    let mut s = PrefetchScheduler::new();
    for id in 1..=4u64 {
        s.enqueue(RomCacheKey::Collection(id), GetRoms::default(), id, false);
    }
    s.enqueue(RomCacheKey::Collection(2), GetRoms::default(), 2, false);
    s.enqueue(RomCacheKey::Collection(9), GetRoms::default(), 9, true);
    assert_eq!(s.queued_len(), 4);
    let a = s.start_next().expect("first");
    assert_eq!(a.0, RomCacheKey::Collection(4));
    let b = s.start_next().expect("second");
    assert_eq!(b.0, RomCacheKey::Collection(3));
    assert!(s.start_next().is_none());
    assert_eq!(s.inflight_len(), 2);
    s.enqueue(RomCacheKey::Collection(4), GetRoms::default(), 4, false);
    assert_eq!(s.queued_len(), 2);
    s.finish(&RomCacheKey::Collection(4));
    assert!(!s.is_inflight(&RomCacheKey::Collection(4)));
    let c = s.start_next().expect("third");
    assert_eq!(c.0, RomCacheKey::Collection(2));
    assert!(s.is_queued(&RomCacheKey::Collection(1)));
}

#[test]
fn deferred_load_step_uses_cache_waits_and_fetches() {
    let mut lib = LibraryBrowseScreen::new(vec![platform(7, "SNES", 12), platform(8, "NES", 0)], vec![]);
    let pending = load_selected_roms(&mut lib, "list_move_down").expect("load");
    assert!(lib.rom_loading);

    // A valid cached list for the selected row is shown at once.
    let cached = RomList { items: vec![], total: 0, limit: 50, offset: 0 };
    let a = step_deferred_load(&mut lib, pending, Some(cached.clone()), 0, 3);
    assert!(matches!(a, DeferredLoadAction::CacheUsed));
    assert!(!lib.rom_loading);
    assert_eq!(lib.roms.as_ref().map(|r| r.limit), Some(50));

    // A cached list for a row no longer selected only ends loading.
    let stale = DeferredRomLoad {
        key: Some(RomCacheKey::Platform(8)),
        request: None,
        expected: 0,
        context: "x",
    };
    lib.rom_loading = true;
    lib.roms = None;
    let a = step_deferred_load(&mut lib, stale, Some(cached), 0, 3);
    assert!(matches!(a, DeferredLoadAction::CacheUsed));
    assert!(!lib.rom_loading);
    assert!(lib.roms.is_none());

    // Within the debounce time the load stays pending.
    let pending = load_selected_roms(&mut lib, "list_move_down").expect("load");
    match step_deferred_load(&mut lib, pending, None, 100_000_000, 3) {
        DeferredLoadAction::Wait(p) => {
            assert_eq!(p.expected, 12);
            assert_eq!(p.context, "list_move_down");
        }
        _ => panic!("expected Wait"),
    }
    assert!(lib.rom_loading);

    // After it, the request is fetched under a new generation.
    let pending = load_selected_roms(&mut lib, "list_move_down").expect("load");
    match step_deferred_load(&mut lib, pending, None, 300_000_000, 3) {
        DeferredLoadAction::Fetch { key, request, expected, gen } => {
            assert_eq!(key, Some(RomCacheKey::Platform(7)));
            assert_eq!(request.platform_id, Some(7));
            assert_eq!(expected, 12);
            assert_eq!(gen, 4);
        }
        _ => panic!("expected Fetch"),
    }
    assert!(lib.rom_loading);

    // A row without games fetches nothing.
    let empty = DeferredRomLoad { key: Some(RomCacheKey::Platform(8)), request: None, expected: 0, context: "x" };
    assert!(matches!(step_deferred_load(&mut lib, empty, None, 300_000_000, 4), DeferredLoadAction::Idle { gen: 5 }));
    assert!(!lib.rom_loading);
}
