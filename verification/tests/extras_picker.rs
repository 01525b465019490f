use romm_tui::extras_picker::{
    check_mark, ExtrasDefaults, ExtrasPickerScreen, ExtrasTargetSeed, RomFile, RomFileCategory,
    EXTRAS_HELP_TEXT,
};
use romm_tui::game_detail::{GameDetailPrevious, GameDetailScreen};
use romm_tui::search::SearchScreen;
use romm_tui::types::Rom;

fn minimal_rom() -> Rom {
    Rom {
        id: 1,
        platform_id: 2,
        platform_slug: Some("nes".into()),
        platform_fs_slug: Some("NES".into()),
        platform_custom_name: None,
        platform_display_name: None,
        fs_name: "game.zip".into(),
        fs_name_no_tags: "game".into(),
        fs_name_no_ext: "game".into(),
        fs_extension: "zip".into(),
        fs_path: "/game.zip".into(),
        fs_size_bytes: 1,
        name: "Game".into(),
        slug: None,
        summary: None,
        path_cover_small: None,
        path_cover_large: None,
        url_cover: None,
        is_unidentified: false,
        is_identified: true,
    }
}

fn detail_with_extras() -> GameDetailScreen {
    let mut primary = minimal_rom();
    primary.url_cover = Some("https://x/c.png".into());
    let mut other = minimal_rom();
    other.id = 2;
    GameDetailScreen::new(
        primary,
        vec![other],
        GameDetailPrevious::Search(SearchScreen::new()),
        None,
    )
}

fn manual_url() -> Option<String> {
    Some("https://x/m.pdf".into())
}

#[test]
fn picker_seeds_checked_state_from_defaults() {
    let detail = detail_with_extras();
    let defaults = ExtrasDefaults {
        include_related_roms: true,
        include_cover: false,
        include_manual: true,
    };
    let picker = ExtrasPickerScreen::new(Box::new(detail), &defaults, Vec::new(), &manual_url());
    assert_eq!(picker.items.len(), 3);
    assert!(picker.items[0].checked);
    assert!(!picker.items[1].checked);
    assert!(picker.items[2].checked);
}

#[test]
fn picker_toggle_all_inverts_when_any_unchecked() {
    let detail = detail_with_extras();
    let defaults = ExtrasDefaults::default();
    let mut picker = ExtrasPickerScreen::new(Box::new(detail), &defaults, Vec::new(), &manual_url());
    picker.items[0].checked = false;
    picker.toggle_all();
    assert!(picker.items.iter().all(|i| i.checked));
    picker.toggle_all();
    assert!(picker.items.iter().all(|i| !i.checked));
}

#[test]
fn defaults_check_everything() {
    let d = ExtrasDefaults::default();
    assert!(d.include_related_roms && d.include_cover && d.include_manual);
}

#[test]
fn picker_rows_in_order_with_labels() {
    let files = vec![
        RomFile { id: 7, file_name: "patch.nsp".into(), category: Some(RomFileCategory::Update) },
        RomFile { id: 8, file_name: "dlc.nsp".into(), category: Some(RomFileCategory::Dlc) },
        RomFile { id: 9, file_name: "extra.bin".into(), category: None },
    ];
    let picker = ExtrasPickerScreen::new(
        Box::new(detail_with_extras()),
        &ExtrasDefaults::default(),
        files,
        &manual_url(),
    );
    let labels: Vec<(&str, &str)> = picker
        .items
        .iter()
        .map(|i| (i.label.as_str(), i.sublabel.as_str()))
        .collect();
    assert_eq!(
        labels,
        vec![
            ("game.zip", "Related ROM (id 2)"),
            ("patch.nsp", "Update (file id 7)"),
            ("dlc.nsp", "DLC (file id 8)"),
            ("extra.bin", "ROM file (file id 9)"),
            ("Cover image", "From url_cover"),
            ("Manual", "From url_manual"),
        ]
    );
    assert!(matches!(&picker.items[0].seed, ExtrasTargetSeed::RelatedRom(r) if r.id == 2));
    assert!(matches!(&picker.items[1].seed, ExtrasTargetSeed::InternalRomFile(f) if f.id == 7));
    assert!(matches!(picker.items[4].seed, ExtrasTargetSeed::Cover));
    assert!(matches!(picker.items[5].seed, ExtrasTargetSeed::Manual));
    assert_eq!(picker.selected_index, 0);
    assert_eq!(picker.rom.id, 1);
}

#[test]
fn picker_skips_blank_cover_and_manual() {
    let mut rom = minimal_rom();
    rom.url_cover = Some("   ".into());
    let detail = GameDetailScreen::new(
        rom,
        Vec::new(),
        GameDetailPrevious::Search(SearchScreen::new()),
        None,
    );
    let picker = ExtrasPickerScreen::new(
        Box::new(detail),
        &ExtrasDefaults::default(),
        Vec::new(),
        &Some(" ".into()),
    );
    assert_eq!(picker.item_count(), 0);
    assert_eq!(picker.selected_count(), 0);
}

#[test]
fn picker_cursor_wraps_both_ways() {
    let mut picker = ExtrasPickerScreen::new(
        Box::new(detail_with_extras()),
        &ExtrasDefaults::default(),
        Vec::new(),
        &manual_url(),
    );
    picker.move_up();
    assert_eq!(picker.selected_index, 2);
    picker.move_down();
    assert_eq!(picker.selected_index, 0);
    picker.move_down();
    picker.move_up();
    assert_eq!(picker.selected_index, 0);
}

#[test]
fn picker_toggle_current_and_count() {
    let mut picker = ExtrasPickerScreen::new(
        Box::new(detail_with_extras()),
        &ExtrasDefaults::default(),
        Vec::new(),
        &manual_url(),
    );
    assert_eq!(picker.selected_count(), 3);
    picker.move_down();
    picker.toggle_current();
    assert!(!picker.items[1].checked);
    assert_eq!(picker.selected_count(), 2);
    picker.toggle_current();
    assert_eq!(picker.selected_count(), 3);
    picker.toggle_all();
    assert_eq!(picker.selected_count(), 0);
}

#[test]
fn picker_message_expires() {
    let mut picker = ExtrasPickerScreen::new(
        Box::new(detail_with_extras()),
        &ExtrasDefaults::default(),
        Vec::new(),
        &None,
    );
    picker.show_message("Nothing selected".to_string(), 1_000);
    picker.expire_message(999);
    assert_eq!(picker.message.as_deref(), Some("Nothing selected"));
    picker.expire_message(1_000);
    assert!(picker.message.is_none());
    picker.show_message("long".to_string(), u128::MAX);
    picker.tick_message();
    assert_eq!(picker.message.as_deref(), Some("long"));
}

#[test]
fn has_any_extras_matches_picker_rows() {
    let bare = GameDetailScreen::new(
        minimal_rom(),
        Vec::new(),
        GameDetailPrevious::Search(SearchScreen::new()),
        None,
    );
    assert!(!bare.has_any_extras(&Vec::new(), &None));
    assert!(!bare.has_any_extras(&Vec::new(), &Some("  ".into())));
    assert!(bare.has_any_extras(&Vec::new(), &manual_url()));
    let file = RomFile { id: 3, file_name: "u.nsp".into(), category: Some(RomFileCategory::Update) };
    assert!(bare.has_any_extras(&vec![file], &None));
    let detail = detail_with_extras();
    assert!(detail.has_any_extras(&Vec::new(), &None));
    let picker = ExtrasPickerScreen::new(Box::new(bare), &ExtrasDefaults::default(), Vec::new(), &None);
    assert_eq!(picker.item_count(), 0);
}

#[test]
fn picker_title_hint_and_marks() {
    let mut picker = ExtrasPickerScreen::new(
        Box::new(detail_with_extras()),
        &ExtrasDefaults::default(),
        Vec::new(),
        &None,
    );
    assert_eq!(picker.title(), "Extras — Game");
    assert_eq!(picker.hint_line(), EXTRAS_HELP_TEXT);
    picker.show_message("Select at least one item".to_string(), 1_000_000_000);
    assert_eq!(picker.hint_line(), "Select at least one item");
    assert_eq!(check_mark(true), "[x]");
    assert_eq!(check_mark(false), "[ ]");
}

#[test]
fn picker_message_with_zero_lifetime_clears_on_tick() {
    let mut picker = ExtrasPickerScreen::new(
        Box::new(detail_with_extras()),
        &ExtrasDefaults::default(),
        Vec::new(),
        &None,
    );
    picker.show_message("gone".to_string(), 0);
    picker.tick_message();
    assert!(picker.message.is_none());
    assert!(picker.message_set_at.is_none());
}
