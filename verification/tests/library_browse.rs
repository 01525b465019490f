use romm_tui::cache::RomCacheKey;
use romm_tui::keys::{KeyCode, KeyPress};
use romm_tui::library_browse::{LibraryBrowseScreen, LibrarySubsection, LibraryViewMode};
use romm_tui::library_keys::{library_chord, LibraryChord};
use romm_tui::rom_group::group_roms_by_name;
use romm_tui::text_search::LibrarySearchMode;
use romm_tui::types::{Collection, Platform, Rom, RomList};

fn rom(id: u64, name: &str, fs_name: &str) -> Rom {
    Rom {
        id,
        platform_id: 1,
        platform_slug: None,
        platform_fs_slug: None,
        platform_custom_name: None,
        platform_display_name: None,
        fs_name: fs_name.to_string(),
        fs_name_no_tags: name.to_string(),
        fs_name_no_ext: name.to_string(),
        fs_extension: "zip".to_string(),
        fs_path: format!("/{id}.zip"),
        fs_size_bytes: 1,
        name: name.to_string(),
        slug: None,
        summary: None,
        path_cover_small: None,
        path_cover_large: None,
        url_cover: None,
        is_unidentified: false,
        is_identified: true,
    }
}

fn platform(id: u64, name: &str, rom_count: u64) -> Platform {
    Platform {
        id,
        slug: format!("p{id}"),
        fs_slug: format!("p{id}"),
        rom_count,
        name: name.to_string(),
        igdb_slug: None,
        moby_slug: None,
        hltb_slug: None,
        custom_name: None,
        igdb_id: None,
        sgdb_id: None,
        moby_id: None,
        launchbox_id: None,
        ss_id: None,
        ra_id: None,
        hasheous_id: None,
        tgdb_id: None,
        flashpoint_id: None,
        category: None,
        generation: None,
        family_name: None,
        family_slug: None,
        url: None,
        url_logo: None,
        firmware: vec![],
        aspect_ratio: None,
        created_at: String::new(),
        updated_at: String::new(),
        fs_size_bytes: 0,
        is_unidentified: false,
        is_identified: true,
        missing_from_fs: false,
        display_name: None,
    }
}

fn collection(id: u64, name: &str, count: Option<u64>, smart: bool, virt: Option<&str>) -> Collection {
    Collection {
        id,
        name: name.to_string(),
        collection_type: None,
        rom_count: count,
        is_smart: smart,
        is_virtual: virt.is_some(),
        virtual_id: virt.map(|s| s.to_string()),
    }
}

#[test]
fn get_selected_group_clamps_stale_index_after_filter() {
    let mut s = LibraryBrowseScreen::new(vec![], vec![]);
    let items = vec![
        rom(1, "alpha", "a.zip"),
        rom(2, "alphabet", "ab.zip"),
        rom(3, "beta", "b.zip"),
    ];
    s.rom_groups = Some(group_roms_by_name(&items));
    s.view_mode = LibraryViewMode::Roms;
    s.enter_rom_search(LibrarySearchMode::Filter);
    for c in "alp".chars() {
        s.add_rom_search_char(c);
    }
    s.rom_search.mode = None;
    s.rom_search.filter_browsing = true;
    s.rom_selected = 99;
    let (primary, _) = s
        .get_selected_group()
        .expect("clamped index should yield a group");
    assert_eq!(primary.name, "alpha");
}

#[test]
fn rom_next_wraps_within_filtered_list_when_filter_browsing() {
    let mut s = LibraryBrowseScreen::new(vec![], vec![]);
    let items = vec![
        rom(1, "alpha", "a.zip"),
        rom(2, "alphabet", "ab.zip"),
        rom(3, "beta", "b.zip"),
    ];
    s.rom_groups = Some(group_roms_by_name(&items));
    s.view_mode = LibraryViewMode::Roms;
    s.enter_rom_search(LibrarySearchMode::Filter);
    for c in "alp".chars() {
        s.add_rom_search_char(c);
    }
    s.rom_search.mode = None;
    s.rom_search.filter_browsing = true;
    assert_eq!(s.rom_selected, 0);
    s.rom_next();
    assert_eq!(s.rom_selected, 1);
    s.rom_next();
    assert_eq!(s.rom_selected, 0);
}

#[test]
fn zero_rom_platform_builds_no_rom_request() {
    let s = LibraryBrowseScreen::new(vec![platform(1, "Empty", 0)], vec![]);
    assert!(
        s.get_roms_request_platform().is_none(),
        "zero-rom platform should not produce ROM API request"
    );
}

#[test]
fn back_to_list_retains_current_rom_state() {
    let mut s = LibraryBrowseScreen::new(vec![platform(1, "SNES", 12)], vec![]);
    let items = vec![rom(1, "alpha", "a.zip")];
    let rom_list = RomList {
        total: 1,
        limit: 1,
        offset: 0,
        items: items.clone(),
    };
    s.view_mode = LibraryViewMode::Roms;
    s.roms = Some(rom_list);
    s.rom_groups = Some(group_roms_by_name(&items));
    s.set_rom_loading(true);
    s.back_to_list();
    assert_eq!(s.view_mode, LibraryViewMode::List);
    assert!(s.roms.is_some(), "back navigation should keep loaded ROM list");
    assert!(s.rom_groups.is_some(), "back navigation should keep grouped ROM rows");
    assert!(
        s.rom_loading,
        "back navigation should preserve in-flight loading state"
    );
}

#[test]
fn empty_state_message_shows_loading_only_when_loading_flag_is_true() {
    let mut s = LibraryBrowseScreen::new(vec![platform(1, "SNES", 12)], vec![]);
    s.clear_roms();
    s.set_rom_loading(false);
    assert_eq!(
        s.empty_rom_state_message(),
        "Select a console or collection and press Enter to load ROMs"
    );
    s.set_rom_loading(true);
    assert_eq!(
        s.empty_rom_state_message(),
        "Loading 12 games... please wait"
    );
}

#[test]
fn list_labels_show_counts_and_collection_kinds() {
    let mut s = LibraryBrowseScreen::new(
        vec![platform(1, "SNES", 12)],
        vec![
            collection(5, "Favs", Some(3), false, None),
            collection(6, "Recent", None, true, None),
            collection(0, "Auto", Some(7), false, Some("v-1")),
        ],
    );
    assert_eq!(s.list_row_labels(), vec!["SNES (12 roms)".to_string()]);
    s.switch_subsection();
    assert_eq!(
        s.list_row_labels(),
        vec![
            "Favs (3 roms)".to_string(),
            "Recent [smart] (0 roms)".to_string(),
            "Auto [auto] (7 roms)".to_string(),
        ]
    );
    assert_eq!(s.list_title(), "Collections");
}

#[test]
fn collection_requests_and_keys_follow_collection_kind() {
    let mut s = LibraryBrowseScreen::new(
        vec![],
        vec![
            collection(5, "Favs", Some(3), false, None),
            collection(6, "Smart", Some(40000), true, None),
            collection(0, "Auto", Some(7), false, Some("v-1")),
        ],
    );
    s.switch_subsection();
    let r = s.get_roms_request_collection().expect("manual collection request");
    assert_eq!(r.collection_id, Some(5));
    assert_eq!(r.limit, Some(3));
    assert_eq!(s.cache_key(), Some(RomCacheKey::Collection(5)));
    s.list_next();
    let r = s.get_roms_request_collection().expect("smart collection request");
    assert_eq!(r.smart_collection_id, Some(6));
    assert_eq!(r.limit, Some(20000));
    assert_eq!(s.cache_key(), Some(RomCacheKey::SmartCollection(6)));
    s.list_next();
    let r = s.get_roms_request_collection().expect("virtual collection request");
    assert_eq!(r.virtual_collection_id.as_deref(), Some("v-1"));
    assert_eq!(s.cache_key(), Some(RomCacheKey::VirtualCollection("v-1".to_string())));
    assert_eq!(s.expected_rom_count(), 7);
    s.list_next();
    assert_eq!(s.list_index, 0);
    s.list_previous();
    assert_eq!(s.list_index, 2);
}

#[test]
fn list_filter_narrows_rows_and_jump_moves_selection() {
    let mut s = LibraryBrowseScreen::new(
        vec![platform(1, "SNES", 1), platform(2, "Genesis", 1), platform(3, "Super Famicom", 1)],
        vec![],
    );
    s.enter_list_search(LibrarySearchMode::Filter);
    for c in "s".chars() {
        s.add_list_search_char(c);
    }
    // every label contains "s" ("roms")
    assert_eq!(s.list_len(), 3);
    for c in "up".chars() {
        s.add_list_search_char(c);
    }
    assert_eq!(s.list_len(), 1);
    assert_eq!(s.selected_platform_id(), Some(3));
    s.clear_list_search();
    assert_eq!(s.list_len(), 3);

    s.enter_list_search(LibrarySearchMode::Jump);
    for c in "gen".chars() {
        s.add_list_search_char(c);
    }
    assert_eq!(s.selected_platform_id(), Some(2));
}

#[test]
fn replace_metadata_keeps_selection_by_key() {
    let mut s = LibraryBrowseScreen::new(
        vec![platform(1, "A", 1), platform(2, "B", 2)],
        vec![],
    );
    s.list_next();
    assert_eq!(s.selected_platform_id(), Some(2));
    let changed = s.replace_metadata_preserving_selection(
        vec![platform(9, "Z", 1), platform(2, "B", 2)],
        vec![],
        true,
        false,
    );
    assert!(!changed);
    assert_eq!(s.list_index, 1);
    let changed = s.replace_metadata_preserving_selection(
        vec![platform(2, "B", 5)],
        vec![],
        true,
        false,
    );
    assert!(changed, "expected count changed");
    assert_eq!(s.list_index, 0);
    assert!(s.roms.is_none());
}

#[test]
fn prefetch_candidates_skip_center_and_empty_collections() {
    let mut s = LibraryBrowseScreen::new(
        vec![],
        vec![
            collection(1, "a", Some(1), false, None),
            collection(2, "b", Some(0), false, None),
            collection(3, "c", Some(3), false, None),
            collection(4, "d", Some(4), false, None),
        ],
    );
    assert!(s.collection_prefetch_candidates(1).is_empty());
    s.switch_subsection();
    s.list_next();
    s.list_next();
    let c = s.collection_prefetch_candidates(1);
    let keys: Vec<RomCacheKey> = c.iter().map(|(k, _, _)| k.clone()).collect();
    assert_eq!(keys, vec![RomCacheKey::Collection(4)]);
    assert_eq!(c[0].2, 4);
}

#[test]
fn scroll_keeps_selection_visible() {
    let mut s = LibraryBrowseScreen::new(vec![], vec![]);
    s.rom_selected = 25;
    s.scroll_offset = 0;
    s.update_rom_scroll_with_len(30, 10);
    assert_eq!(s.scroll_offset, 16);
    s.rom_selected = 3;
    s.update_rom_scroll_with_len(30, 10);
    assert_eq!(s.scroll_offset, 3);
}

#[test]
fn set_roms_groups_and_resets_selection() {
    let mut s = LibraryBrowseScreen::new(vec![platform(1, "SNES", 2)], vec![]);
    s.rom_selected = 5;
    s.set_rom_loading(true);
    s.set_roms(RomList {
        items: vec![rom(1, "b", "b.zip"), rom(2, "a", "a [DLC].zip"), rom(3, "a", "a.zip")],
        total: 3,
        limit: 3,
        offset: 0,
    });
    assert!(!s.rom_loading);
    assert_eq!(s.rom_selected, 0);
    let (primary, others) = s.get_selected_group().expect("group");
    assert_eq!(primary.id, 3);
    assert_eq!(others.len(), 1);
    assert_eq!(others[0].id, 2);
}

#[test]
fn temporary_metadata_footer_expires() {
    let mut s = LibraryBrowseScreen::new(vec![], vec![]);
    s.set_temporary_metadata_footer("Library scan finished".to_string(), 500);
    s.expire_metadata_footer(499);
    assert_eq!(s.metadata_footer.as_deref(), Some("Library scan finished"));
    s.expire_metadata_footer(500);
    assert!(s.metadata_footer.is_none());
    assert!(s.metadata_footer_set_at.is_none());
    s.set_metadata_footer(Some("sticky".to_string()));
    s.poll_footer_clear();
    assert_eq!(s.metadata_footer.as_deref(), Some("sticky"));
    s.set_temporary_metadata_footer("long".to_string(), u128::MAX);
    s.poll_footer_clear();
    assert_eq!(s.metadata_footer.as_deref(), Some("long"));
}

#[test]
fn list_next_then_previous_returns_to_row() {
    let mut s = LibraryBrowseScreen::new(
        vec![platform(1, "NES", 3), platform(2, "SNES", 4), platform(3, "GB", 5)],
        vec![],
    );
    for start in 0..3 {
        s.list_index = start;
        s.list_next();
        s.list_previous();
        assert_eq!(s.list_index, start);
    }
}

#[test]
fn footer_with_zero_lifetime_clears_on_poll() {
    let mut s = LibraryBrowseScreen::new(vec![], vec![]);
    s.set_temporary_metadata_footer("done".to_string(), 0);
    s.poll_footer_clear();
    assert!(s.metadata_footer.is_none());
}

#[test]
fn ctrl_chords_rescan_and_toggle_upload_prompt() {
    let ctrl = |c: char| KeyPress { code: KeyCode::Char(c), ctrl: true, is_press: true };
    let mut s = LibraryBrowseScreen::new(vec![platform(1, "NES", 3)], vec![]);
    assert_eq!(library_chord(&mut s, &ctrl('r'), false, true, false, false), LibraryChord::Rescan);
    assert_eq!(library_chord(&mut s, &ctrl('R'), false, true, false, true), LibraryChord::Consumed);
    assert_eq!(library_chord(&mut s, &ctrl('r'), true, true, false, false), LibraryChord::NotChord);
    let plain = KeyPress { code: KeyCode::Char('u'), ctrl: false, is_press: true };
    assert_eq!(library_chord(&mut s, &plain, false, true, false, false), LibraryChord::NotChord);
    assert_eq!(library_chord(&mut s, &ctrl('u'), false, true, false, false), LibraryChord::OpenedUploadPrompt);
    assert!(s.any_upload_prompt_open());
    assert_eq!(library_chord(&mut s, &ctrl('r'), false, true, false, false), LibraryChord::Consumed);
    assert_eq!(library_chord(&mut s, &ctrl('U'), false, true, false, false), LibraryChord::ClosedUploadPrompt);
    assert!(!s.any_upload_prompt_open());
    s.switch_subsection();
    assert_eq!(s.subsection, LibrarySubsection::ByCollection);
    assert_eq!(library_chord(&mut s, &ctrl('u'), false, true, false, false), LibraryChord::UploadNeedsConsoles);
    assert_eq!(s.metadata_footer.as_deref(), Some("Upload requires Consoles view — press t"));
    assert_eq!(library_chord(&mut s, &ctrl('u'), false, false, false, false), LibraryChord::Consumed);
    s.open_upload_prompt();
    s.close_upload_prompt();
    assert!(!s.upload_prompt_open);
}

#[test]
fn jump_typing_moves_to_first_match() {
    let mut s = LibraryBrowseScreen::new(
        vec![platform(1, "Atari", 1), platform(2, "NES", 1), platform(3, "SNES", 1)],
        vec![],
    );
    s.enter_list_search(LibrarySearchMode::Jump);
    s.add_list_search_char('n');
    assert_eq!(s.list_index, 1);
}

#[test]
fn search_bars_delete_then_retype_restore_the_query() {
    let mut s = LibraryBrowseScreen::new(vec![platform(1, "NES", 3)], vec![]);
    s.enter_list_search(LibrarySearchMode::Filter);
    for c in "nes".chars() {
        s.add_list_search_char(c);
    }
    s.delete_list_search_char();
    assert_eq!(s.list_search.query, "ne");
    s.add_list_search_char('s');
    assert_eq!(s.list_search.query, "nes");

    s.enter_rom_search(LibrarySearchMode::Filter);
    for c in "zel".chars() {
        s.add_rom_search_char(c);
    }
    let normalized = s.rom_search.normalized_query.clone();
    s.delete_rom_search_char();
    assert_eq!(s.rom_search.query, "ze");
    s.add_rom_search_char('l');
    assert_eq!(s.rom_search.query, "zel");
    assert_eq!(s.rom_search.normalized_query, normalized);
}
