use romm_tui::downloads::{download_row, download_rows, GaugeTone, NO_DOWNLOADS_TEXT};
use romm_tui::game_detail::safe_path_segment;
use romm_tui::game_detail::{
    detect_cover_protocol_from_env, CoverProtocol, CoverState, DownloadJob, FooterView,
    GameDetailAction, GameDetailPrevious, GameDetailScreen, LineTone,
};
use romm_tui::game_detail::{SaveListState, SaveRow};
use romm_tui::keys::KeyCode;
use romm_tui::path_picker::{PathPicker, PathPickerMode};
use romm_tui::runtime::DownloadStatus;
use romm_tui::search::SearchScreen;
use romm_tui::types::Rom;

fn game_rom(id: u64, url_cover: Option<&str>) -> Rom {
    Rom {
        id,
        platform_id: 1,
        platform_slug: None,
        platform_fs_slug: None,
        platform_custom_name: None,
        platform_display_name: None,
        fs_name: "game.zip".to_string(),
        fs_name_no_tags: "game".to_string(),
        fs_name_no_ext: "game".to_string(),
        fs_extension: "zip".to_string(),
        fs_path: "/game.zip".to_string(),
        fs_size_bytes: 10,
        name: "game".to_string(),
        slug: None,
        summary: None,
        path_cover_small: None,
        path_cover_large: None,
        url_cover: url_cover.map(|s| s.to_string()),
        is_unidentified: false,
        is_identified: true,
    }
}

fn detail(rom: Rom) -> GameDetailScreen {
    GameDetailScreen::new(
        rom,
        Vec::new(),
        GameDetailPrevious::Search(SearchScreen::new()),
        None,
    )
}

fn job(rom_id: u64, percent: u16, status: DownloadStatus) -> DownloadJob {
    DownloadJob {
        id: 0,
        rom_id,
        name: "game".to_string(),
        platform: "NES".to_string(),
        percent,
        status,
    }
}

#[test]
fn detect_cover_protocol_prefers_kitty_hint() {
    let protocol = detect_cover_protocol_from_env(
        Some("iTerm.app".into()),
        Some("xterm-256color".into()),
        Some("123".into()),
    );
    assert_eq!(protocol, Some(CoverProtocol::Kitty));
}

#[test]
fn detect_cover_protocol_supports_sixel_term() {
    let protocol =
        detect_cover_protocol_from_env(None, Some("xterm+sixel".into()), Some(String::new()));
    assert_eq!(protocol, Some(CoverProtocol::Sixel));
}

#[test]
fn detect_cover_protocol_iterm_family_and_none() {
    assert_eq!(
        detect_cover_protocol_from_env(Some("WezTerm".into()), None, None),
        Some(CoverProtocol::Iterm2)
    );
    assert_eq!(
        detect_cover_protocol_from_env(None, Some("XTERM-SIXEL".into()), None),
        Some(CoverProtocol::Sixel)
    );
    assert_eq!(
        detect_cover_protocol_from_env(Some("Apple_Terminal".into()), Some("xterm".into()), None),
        None
    );
}

#[test]
fn missing_protocol_still_requests_cover_load() {
    let mut d = detail(game_rom(5, Some("http://example.com/cover.png")));
    d.cover_protocol = None;
    assert!(d.should_request_cover_load());
    d.set_cover_loading();
    assert_eq!(d.cover_state, CoverState::Loading);
}

#[test]
fn footer_help_text_tracks_technical_mode() {
    let mut d = detail(game_rom(1, None));
    let non_technical = d.footer_help_text();
    assert!(non_technical.contains("More technical details"));
    d.show_technical = true;
    let technical = d.footer_help_text();
    assert!(technical.contains("Hide technical"));
}

#[test]
fn game_detail_cover_state_ready_then_error() {
    let mut d = detail(game_rom(1, Some("http://example.com/cover.png")));
    d.cover_protocol = Some(CoverProtocol::Iterm2);
    d.set_cover_loading();
    assert_eq!(d.cover_state, CoverState::Loading);
    d.cover_ready();
    assert_eq!(d.cover_state, CoverState::Ready);
    d.apply_cover_error("oops".to_string());
    assert_eq!(d.cover_state, CoverState::Failed("oops".to_string()));
    assert_eq!(d.cover_pipeline_label(), "Advanced terminal protocol");
}

#[test]
fn game_detail_without_cover_is_idle() {
    let mut d = detail(game_rom(1, None));
    assert_eq!(d.cover_state, CoverState::Idle);
    assert!(!d.should_request_cover_load());
    d.set_cover_loading();
    assert_eq!(d.cover_state, CoverState::Idle);
    let a = d.handle_key(KeyCode::Char('o'), false, &[]);
    assert!(matches!(a, GameDetailAction::Nothing));
    assert_eq!(d.message.as_deref(), Some("No cover URL"));
}

#[test]
fn game_detail_keys_start_download_once_and_go_back() {
    let mut d = detail(game_rom(1, Some("http://c")));
    assert!(matches!(
        d.handle_key(KeyCode::Enter, false, &[]),
        GameDetailAction::StartDownload
    ));
    assert!(d.has_started_download);
    assert!(matches!(d.handle_key(KeyCode::Enter, false, &[]), GameDetailAction::Nothing));
    match d.handle_key(KeyCode::Char('o'), false, &[]) {
        GameDetailAction::OpenCover(u) => assert_eq!(u, "http://c"),
        _ => panic!("expected the cover URL"),
    }
    d.cover_open_finished(Err("no browser".to_string()));
    assert_eq!(d.message.as_deref(), Some("Failed: no browser"));
    d.handle_key(KeyCode::Char('m'), false, &[]);
    assert!(d.show_technical);
    assert!(matches!(d.handle_key(KeyCode::Esc, false, &[]), GameDetailAction::Back));
    assert!(d.message.is_none());
    assert!(matches!(d.handle_key(KeyCode::Char('q'), false, &[]), GameDetailAction::Quit));
}

#[test]
fn game_detail_acknowledges_finished_download_only_when_idle() {
    let mut d = detail(game_rom(7, None));
    let running = vec![
        job(7, 100, DownloadStatus::Done),
        job(7, 40, DownloadStatus::Downloading),
    ];
    d.handle_key(KeyCode::Char('x'), false, &running);
    assert!(!d.download_completion_acknowledged);
    match d.footer_view(&running) {
        FooterView::Progress { label, percent, failed } => {
            assert_eq!(label, "Downloading… 40%");
            assert_eq!(percent, 40);
            assert!(!failed);
        }
        _ => panic!("expected progress"),
    }

    let done = vec![job(7, 100, DownloadStatus::Done), job(8, 5, DownloadStatus::Downloading)];
    assert_eq!(d.active_download(&done), Some(0));
    d.handle_key(KeyCode::Char('x'), false, &done);
    assert!(d.download_completion_acknowledged);
    assert_eq!(d.active_download(&done), None);
    match d.footer_view(&done) {
        FooterView::Text(t) => {
            assert_eq!(t, "Enter: Download | o: Open cover | m: More technical details | Esc: Back")
        }
        _ => panic!("expected help text"),
    }
}

#[test]
fn game_detail_metadata_lines() {
    let mut rom = game_rom(3, None);
    rom.platform_custom_name = Some("Nintendo".to_string());
    rom.summary = Some("  A fine game.  ".to_string());
    rom.slug = Some("fine".to_string());
    let mut d = detail(rom);
    d.other_files = (0..12).map(|i| {
        let mut r = game_rom(100 + i, None);
        r.fs_name = format!("dlc{i}.zip");
        r
    }).collect();
    d.show_technical = true;
    let lines = d.metadata_lines("10 B");
    let flat: Vec<(String, String)> = lines
        .iter()
        .map(|l| (l.label.to_string(), l.text.clone()))
        .collect();
    assert_eq!(flat[0], ("Title: ".to_string(), "game".to_string()));
    assert_eq!(flat[1], ("Platform: ".to_string(), "Nintendo".to_string()));
    assert_eq!(flat[4], ("Download: ".to_string(), "Not started".to_string()));
    assert_eq!(flat[5], ("Cover URL: ".to_string(), "Missing".to_string()));
    assert_eq!(flat[8], (String::new(), "A fine game.".to_string()));
    assert_eq!(flat[11], ("Size: ".to_string(), "10 B".to_string()));
    assert_eq!(
        flat[13],
        ("Other files (updates/DLC): ".to_string(), "12 file(s)".to_string())
    );
    assert_eq!(flat[14], (String::new(), "  • dlc0.zip".to_string()));
    assert_eq!(flat[24], (String::new(), "  … and 2 more".to_string()));
    assert_eq!(lines[26].tone, LineTone::Technical);
    assert_eq!(flat[27], (String::new(), "  ID: 3".to_string()));
    assert_eq!(flat[29], (String::new(), "  Slug: fine".to_string()));
    assert_eq!(flat[30], (String::new(), "  Identified: true".to_string()));
    assert_eq!(lines.len(), 31);
}

#[test]
fn downloads_rows_label_progress_and_split_width() {
    let j = job(1, 42, DownloadStatus::Downloading);
    let r = download_row(&j, 40);
    assert_eq!(r.text, "game | NES | ");
    assert_eq!(r.text_width, 13);
    assert_eq!(r.gauge_width, 27);
    assert_eq!(r.label, "42%");
    assert_eq!(r.tone, GaugeTone::Progress);
    let narrow = download_row(&job(1, 0, DownloadStatus::Error("timeout".to_string())), 5);
    assert_eq!(narrow.text_width, 5);
    assert_eq!(narrow.gauge_width, 0);
    assert_eq!(narrow.label, "Error: timeout");
    let jobs = vec![job(1, 1, DownloadStatus::Done), job(2, 2, DownloadStatus::Done), job(3, 3, DownloadStatus::Done)];
    assert_eq!(download_rows(&jobs, 2, 30).len(), 2);
    assert_eq!(download_rows(&jobs, 2, 30)[1].label, "Done");
    assert!(NO_DOWNLOADS_TEXT.starts_with("No downloads."));
}

#[test]
fn safe_path_segment_cleans_names() {
    assert_eq!(safe_path_segment("Zelda: Link's Awakening.sav"), "Zelda_ Link_s Awakening.sav");
    assert_eq!(safe_path_segment("  ..hidden.. "), "hidden");
    assert_eq!(safe_path_segment("..."), "game");
    assert_eq!(safe_path_segment("Pokémon"), "Pok_mon");
}

#[test]
fn cover_state_transitions_to_ready_and_error() {
    let mut detail = GameDetailScreen::new(
        game_rom(1, Some("http://example.com/cover.png")),
        Vec::new(),
        GameDetailPrevious::Search(SearchScreen::new()),
        Some(CoverProtocol::Iterm2),
    );
    detail.set_cover_loading();
    assert_eq!(detail.cover_state, CoverState::Loading);

    // The decoded image itself is held by the front end.
    detail.cover_ready();
    assert_eq!(detail.cover_state, CoverState::Ready);

    detail.apply_cover_error("oops".to_string());
    assert_eq!(detail.cover_state, CoverState::Failed("oops".to_string()));
}

#[test]
fn extras_key_asks_for_the_picker() {
    let mut d = detail(game_rom(1, None));
    assert!(matches!(d.handle_key(KeyCode::Char('e'), false, &[]), GameDetailAction::Extras));
    assert!(matches!(d.handle_key(KeyCode::Char('E'), false, &[]), GameDetailAction::Extras));
    assert!(matches!(d.handle_key(KeyCode::Enter, true, &[]), GameDetailAction::Extras));
    assert!(!d.has_started_download);
    assert!(!d.request_extras(&Vec::new(), &None));
    assert_eq!(d.message.as_deref(), Some("No extras available for this ROM"));
    let mut d2 = detail(game_rom(2, Some("http://c")));
    assert!(d2.request_extras(&Vec::new(), &None));
    assert!(d2.message.is_none());
}

#[test]
fn download_start_points_to_extras_when_there_are_updates() {
    let mut d = detail(game_rom(1, None));
    d.note_extras_after_download(false);
    assert!(d.message.is_none());
    d.note_extras_after_download(true);
    assert_eq!(d.message.as_deref(), Some("Updates/DLC available. Press e to download extras."));
}

fn save(id: u64, name: &str) -> SaveRow {
    SaveRow { id, file_name: name.to_string() }
}

#[test]
fn save_list_selection_and_keys() {
    let mut d = detail(game_rom(1, None));
    assert!(matches!(d.saves_state, SaveListState::Idle));
    d.handle_key(KeyCode::Char('D'), false, &[]);
    assert_eq!(d.message.as_deref(), Some("No save selected"));
    assert!(d.message_set_at.is_some());
    d.set_saves_loading();
    assert!(matches!(d.saves_state, SaveListState::Loading));
    d.selected_save_index = 7;
    d.apply_saves(vec![save(10, "a.sav"), save(11, "b.sav"), save(12, "c.sav")]);
    assert_eq!(d.selected_save_index, 2);
    d.handle_key(KeyCode::Down, false, &[]);
    assert_eq!(d.selected_save_index, 2);
    d.handle_key(KeyCode::Char('k'), false, &[]);
    d.handle_key(KeyCode::Up, false, &[]);
    d.handle_key(KeyCode::Up, false, &[]);
    assert_eq!(d.selected_save_index, 0);
    d.handle_key(KeyCode::Char('j'), false, &[]);
    match d.handle_key(KeyCode::Char('D'), false, &[]) {
        GameDetailAction::DownloadSave(r) => {
            assert_eq!(r.id, 11);
            assert_eq!(r.file_name, "b.sav");
        }
        _ => panic!("expected a save download"),
    }
    d.save_download_started();
    assert_eq!(d.message.as_deref(), Some("Downloading save..."));
    d.apply_saves(Vec::new());
    assert_eq!(d.selected_save_index, 0);
    assert!(d.selected_save().is_none());
    d.apply_saves_error("boom".to_string());
    assert!(matches!(&d.saves_state, SaveListState::Failed(e) if e == "boom"));
}

#[test]
fn save_upload_picker_takes_keys_until_esc() {
    let mut d = detail(game_rom(1, None));
    assert!(matches!(d.handle_key(KeyCode::Char('u'), false, &[]), GameDetailAction::UploadSave));
    d.open_save_upload_picker(PathPicker::new(PathPickerMode::File, String::new(), "/".to_string()));
    assert_eq!(d.message.as_deref(), Some("Choose a save file to upload"));
    assert!(matches!(d.handle_key(KeyCode::Char('q'), false, &[]), GameDetailAction::PickerKey));
    assert!(matches!(d.handle_key(KeyCode::Esc, false, &[]), GameDetailAction::Nothing));
    assert!(d.save_upload_picker.is_none());
    assert!(d.message.is_none());
    d.open_save_upload_picker(PathPicker::new(PathPickerMode::File, String::new(), "/".to_string()));
    d.save_upload_started();
    assert!(d.save_upload_picker.is_none());
    assert_eq!(d.message.as_deref(), Some("Uploading save..."));
}

#[test]
fn detail_timed_message_expires() {
    let mut d = detail(game_rom(1, None));
    d.set_timed_message("hello".to_string(), 100);
    d.expire_message(99);
    assert_eq!(d.message.as_deref(), Some("hello"));
    d.expire_message(100);
    assert!(d.message.is_none());
    d.set_timed_message("now".to_string(), 0);
    d.tick_message();
    assert!(d.message.is_none());
}
