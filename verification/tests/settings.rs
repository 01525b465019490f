use std::collections::HashMap;

use romm_tui::settings::{
    auth_status_text, rows_of, tab_at, AuthSummary, ConsolePathKind, MessageTone,
    SaveSyncCompatibility, SettingsConfirm, SettingsInit, SettingsIntent, SettingsPickerKind,
    SettingsRow, SettingsScreen, SettingsTab, SyncDevice,
};
use romm_tui::settings::{confirm_prompt, DevicePane, SettingsStatus, SETTINGS_EDITING_TEXT};
use romm_tui::types::Platform;

const UNSUPPORTED: &str = "This RomM server does not expose save-sync endpoints; upgrade RomM to use romm-cli sync.";

fn init() -> SettingsInit {
    SettingsInit {
        base_url: "https://romm.example.com".to_string(),
        download_dir: "C:\\roms".to_string(),
        save_dir: "C:\\saves".to_string(),
        sync_device_id: None,
        use_https: true,
        extras_include_related_roms: true,
        extras_include_cover: true,
        extras_include_manual: true,
        auth_status: auth_status_text(&None, false),
        version: "0.0.0".to_string(),
        rom_platform_dirs: HashMap::new(),
        save_platform_dirs: HashMap::new(),
    }
}

fn screen() -> SettingsScreen {
    SettingsScreen::new(
        init(),
        Some("1.0.0".to_string()),
        SaveSyncCompatibility {
            supported: true,
            unsupported_message: String::new(),
        },
    )
}

fn unsupported_screen() -> SettingsScreen {
    SettingsScreen::new(
        init(),
        Some("1.0.0".to_string()),
        SaveSyncCompatibility {
            supported: false,
            unsupported_message: format!("{} Missing endpoint(s): GET /api/devices", UNSUPPORTED),
        },
    )
}

fn message_text(s: &SettingsScreen) -> Option<&str> {
    s.message.as_ref().map(|(msg, _)| msg.as_str())
}

fn platform(id: u64, name: &str) -> Platform {
    Platform {
        id,
        slug: format!("p{id}"),
        fs_slug: format!("p{id}"),
        rom_count: 1,
        name: name.to_string(),
        igdb_slug: None,
        moby_slug: None,
        hltb_slug: None,
        custom_name: None,
        igdb_id: None,
        sgdb_id: None,
        moby_id: None,
        launchbox_id: None,
        ss_id: None,
        ra_id: None,
        hasheous_id: None,
        tgdb_id: None,
        flashpoint_id: None,
        category: None,
        generation: None,
        family_name: None,
        family_slug: None,
        url: None,
        url_logo: None,
        firmware: vec![],
        aspect_ratio: None,
        created_at: String::new(),
        updated_at: String::new(),
        fs_size_bytes: 0,
        is_unidentified: false,
        is_identified: true,
        missing_from_fs: false,
        display_name: None,
    }
}

#[test]
fn settings_tabs_expose_expected_rows() {
    let s = screen();
    assert_eq!(
        s.visible_rows(),
        vec![SettingsRow::BaseUrl, SettingsRow::UseHttps]
    );
    assert_eq!(
        rows_of(SettingsTab::Connection),
        vec![SettingsRow::BaseUrl, SettingsRow::UseHttps]
    );
    assert_eq!(SettingsTab::Saves.index(), SettingsTab::Roms.index() + 1);
    assert_eq!(
        rows_of(SettingsTab::Saves),
        vec![
            SettingsRow::SaveDir,
            SettingsRow::SaveConsolePaths,
            SettingsRow::SyncDevice,
            SettingsRow::SyncNow
        ]
    );
    assert_eq!(
        rows_of(SettingsTab::Extras),
        vec![
            SettingsRow::ExtrasRelatedRoms,
            SettingsRow::ExtrasCover,
            SettingsRow::ExtrasManual
        ]
    );
    assert_eq!(
        rows_of(SettingsTab::AuthMaintenance),
        vec![
            SettingsRow::Auth,
            SettingsRow::ClearCache,
            SettingsRow::ResetConfiguration
        ]
    );
}

#[test]
fn settings_row_navigation_wraps_within_active_tab() {
    let mut s = screen();
    assert_eq!(s.selected_row(), SettingsRow::BaseUrl);
    s.previous();
    assert_eq!(s.selected_row(), SettingsRow::UseHttps);
    s.next();
    assert_eq!(s.selected_row(), SettingsRow::BaseUrl);
}

#[test]
fn settings_saves_tab_shows_save_console_paths_row() {
    let mut s = screen();
    s.selected_tab = SettingsTab::Saves;
    assert_eq!(
        s.visible_rows(),
        vec![
            SettingsRow::SaveDir,
            SettingsRow::SaveConsolePaths,
            SettingsRow::SyncDevice,
            SettingsRow::SyncNow,
        ]
    );
    s.next();
    assert_eq!(s.selected_row(), SettingsRow::SaveConsolePaths);
}

#[test]
fn settings_roms_tab_always_shows_console_paths_row() {
    let mut s = screen();
    s.selected_tab = SettingsTab::Roms;
    assert_eq!(
        s.visible_rows(),
        vec![SettingsRow::RomsDir, SettingsRow::ConsolePaths]
    );
    s.next();
    assert_eq!(s.selected_row(), SettingsRow::ConsolePaths);
}

#[test]
fn settings_tab_navigation_preserves_per_tab_selection() {
    let mut s = screen();

    s.next();
    assert_eq!(s.selected_row(), SettingsRow::UseHttps);

    s.next_tab();
    assert_eq!(s.selected_tab, SettingsTab::Roms);
    assert_eq!(s.selected_row(), SettingsRow::RomsDir);

    s.next_tab();
    assert_eq!(s.selected_tab, SettingsTab::Saves);
    assert_eq!(s.selected_row(), SettingsRow::SaveDir);

    s.next();
    assert_eq!(s.selected_row(), SettingsRow::SaveConsolePaths);

    s.next();
    assert_eq!(s.selected_row(), SettingsRow::SyncDevice);

    s.previous_tab();
    assert_eq!(s.selected_tab, SettingsTab::Roms);
    assert_eq!(s.selected_row(), SettingsRow::RomsDir);

    s.previous_tab();
    assert_eq!(s.selected_tab, SettingsTab::Connection);
    assert_eq!(s.selected_row(), SettingsRow::UseHttps);

    s.next_tab();
    assert_eq!(s.selected_tab, SettingsTab::Roms);
    assert_eq!(s.selected_row(), SettingsRow::RomsDir);

    s.next_tab();
    assert_eq!(s.selected_tab, SettingsTab::Saves);
    assert_eq!(s.selected_row(), SettingsRow::SyncDevice);
}

#[test]
fn settings_activation_rows_resolve_to_expected_intents() {
    let mut s = screen();

    s.selected_tab = SettingsTab::AuthMaintenance;
    assert_eq!(s.selected_row(), SettingsRow::Auth);

    s.next();
    assert_eq!(s.selected_row(), SettingsRow::ClearCache);
    s.enter_edit();
    assert_eq!(s.confirm, Some(SettingsConfirm::ClearCache));

    s.cancel_edit();
    s.next();
    assert_eq!(s.selected_row(), SettingsRow::ResetConfiguration);
    s.enter_edit();
    assert_eq!(s.confirm, Some(SettingsConfirm::Reset));
}

#[test]
fn settings_save_action_rows_trigger_matching_state() {
    let mut s = screen();
    s.selected_tab = SettingsTab::Saves;

    s.next();
    s.next();
    assert_eq!(s.selected_row(), SettingsRow::SyncDevice);
    let intent = s.enter_edit();
    assert!(matches!(intent, SettingsIntent::LoadDevices));
    assert!(s.device_picker_open);
    assert!(s.device_picker_loading);

    s.device_picker_open = false;
    s.device_picker_loading = false;
    s.next();
    assert_eq!(s.selected_row(), SettingsRow::SyncNow);
    let intent = s.enter_edit();
    assert!(matches!(intent, SettingsIntent::StartSaveSync));
    assert_eq!(message_text(&s), Some("Starting save sync..."));
}

#[test]
fn settings_extras_rows_toggle_matching_defaults() {
    let mut s = screen();
    s.selected_tab = SettingsTab::Extras;

    s.enter_edit();
    assert!(!s.extras_include_related_roms);
    assert!(s.extras_include_cover);
    assert!(s.extras_include_manual);

    s.next();
    s.enter_edit();
    assert!(!s.extras_include_cover);
    assert!(s.extras_include_manual);

    s.next();
    s.enter_edit();
    assert!(!s.extras_include_manual);
}

#[test]
fn settings_unsupported_save_sync_rows_do_not_open_device_picker_or_start_sync() {
    let mut s = unsupported_screen();
    s.selected_tab = SettingsTab::Saves;

    s.next();
    s.next();
    assert_eq!(s.selected_row(), SettingsRow::SyncDevice);
    s.enter_edit();
    assert!(!s.device_picker_open);
    assert_eq!(
        message_text(&s),
        Some(
            "This RomM server does not expose save-sync endpoints; upgrade RomM to use romm-cli sync. Missing endpoint(s): GET /api/devices"
        )
    );

    s.next();
    assert_eq!(s.selected_row(), SettingsRow::SyncNow);
    s.enter_edit();
    assert!(!s.sync_inflight);
    assert!(s
        .message
        .as_ref()
        .map(|(msg, _)| msg.contains(UNSUPPORTED))
        .unwrap_or(false));
}

#[test]
fn settings_unsupported_save_sync_rows_render_requires_newer_server_annotation() {
    let s = unsupported_screen();
    assert!(s
        .row_label(SettingsRow::SyncDevice)
        .contains("requires newer RomM server"));
    assert!(s
        .row_label(SettingsRow::SyncNow)
        .contains("requires newer RomM server"));
}

#[test]
fn settings_new_starts_on_connection_with_heartbeat_fallback() {
    let s = SettingsScreen::new(
        init(),
        None,
        SaveSyncCompatibility {
            supported: true,
            unsupported_message: String::new(),
        },
    );
    assert_eq!(s.server_version, "unavailable (heartbeat failed)");
    assert_eq!(s.selected_tab, SettingsTab::Connection);
    assert!(!s.editing);
    assert_eq!(tab_at(4), SettingsTab::AuthMaintenance);
    assert_eq!(SettingsTab::AuthMaintenance.title(), "Auth/Maint");
}

#[test]
fn settings_last_tab_wraps_to_first() {
    let mut s = screen();
    s.previous_tab();
    assert_eq!(s.selected_tab, SettingsTab::AuthMaintenance);
    s.next_tab();
    assert_eq!(s.selected_tab, SettingsTab::Connection);
}

#[test]
fn settings_base_url_edit_and_https_toggle() {
    let mut s = screen();
    let intent = s.enter_edit();
    assert!(matches!(intent, SettingsIntent::Nothing));
    assert!(s.editing);
    assert_eq!(s.edit_buffer, "https://romm.example.com");
    s.delete_char();
    s.add_char('g');
    assert_eq!(s.edit_buffer, "https://romm.example.cog");
    s.move_cursor_left();
    s.move_cursor_left();
    s.add_char('X');
    assert_eq!(s.edit_buffer, "https://romm.example.cXog");
    assert!(s.save_edit());
    assert_eq!(s.base_url, "https://romm.example.cXog");
    assert!(!s.editing);

    s.next();
    assert_eq!(s.selected_row(), SettingsRow::UseHttps);
    s.enter_edit();
    assert!(!s.use_https);
    assert_eq!(s.base_url, "http://romm.example.cXog");
    assert_eq!(s.message.as_ref().map(|(_, t)| *t), Some(MessageTone::Success));
    assert_eq!(s.row_label(SettingsRow::UseHttps), "Use HTTPS:    [ ] No");
}

#[test]
fn settings_directory_rows_open_path_picker() {
    let mut s = screen();
    s.selected_tab = SettingsTab::Roms;
    let intent = s.enter_edit();
    match intent {
        SettingsIntent::OpenPathPicker(kind, start) => {
            assert_eq!(kind, SettingsPickerKind::RomsDir);
            assert_eq!(start, "C:\\roms");
        }
        _ => panic!("expected a path picker"),
    }
    assert_eq!(s.path_picker, Some(SettingsPickerKind::RomsDir));
}

#[test]
fn settings_console_paths_flow() {
    let mut s = screen();
    s.open_console_picker(ConsolePathKind::Roms);
    assert!(s.console_picker_open);
    assert!(s.console_picker_loading);
    s.set_console_platforms(vec![platform(3, "SNES"), platform(7, "GBA")]);
    assert!(!s.console_picker_loading);
    s.console_next();
    assert_eq!(s.console_selected_index, 1);
    s.console_next();
    assert_eq!(s.console_selected_index, 1);
    s.confirm_console_path(7, "/roms/gba".to_string());
    assert_eq!(s.rom_platform_dirs.get(&7).map(|p| p.as_str()), Some("/roms/gba"));
    assert_eq!(
        s.row_label(SettingsRow::ConsolePaths),
        "Console paths: 1 custom · Enter to edit"
    );
    s.clear_console_path(7);
    assert!(s.rom_platform_dirs.is_empty());
}

#[test]
fn settings_device_picker_selects_configured_device() {
    let mut s = screen();
    s.sync_device_id = Some("dev-2".to_string());
    let devices = vec![
        SyncDevice {
            id: "dev-1".to_string(),
            name: None,
            sync_mode: "manual".to_string(),
        },
        SyncDevice {
            id: "dev-2".to_string(),
            name: Some("Deck".to_string()),
            sync_mode: "auto".to_string(),
        },
    ];
    s.set_devices(devices);
    assert_eq!(s.device_selected_index, 1);
    assert!(!s.device_picker_loading);
    s.device_previous();
    assert_eq!(s.device_selected_index, 0);
    s.device_picker_open = true;
    s.confirm_device();
    assert_eq!(s.sync_device_id.as_deref(), Some("dev-1"));
    assert!(!s.device_picker_open);
    assert_eq!(s.row_label(SettingsRow::SyncDevice), "Sync Device:  dev-1");
}

#[test]
fn settings_auth_status_text_variants() {
    assert_eq!(
        auth_status_text(
            &Some(AuthSummary::Basic {
                username: "bob".to_string()
            }),
            false
        ),
        "Basic (user: bob)"
    );
    assert_eq!(auth_status_text(&Some(AuthSummary::Bearer), false), "API Token");
    assert_eq!(
        auth_status_text(&None, false),
        "None (no API credentials in env/keyring)"
    );
}

#[test]
fn settings_row_round_trip_and_url_type_then_backspace() {
    let mut s = screen();
    s.selected_tab = SettingsTab::Saves;
    for _ in 0..4 {
        let row = s.selected_row();
        s.next();
        s.previous();
        assert_eq!(s.selected_row(), row);
        s.next();
    }
    s.selected_tab = SettingsTab::Connection;
    s.enter_edit();
    s.move_cursor_left();
    s.move_cursor_left();
    let before = (s.edit_buffer.clone(), s.edit_cursor);
    s.add_char('z');
    s.delete_char();
    assert_eq!((s.edit_buffer.clone(), s.edit_cursor), before);
}

#[test]
fn settings_status_line_and_footer_follow_state() {
    let mut s = screen();
    assert!(matches!(s.status_line(), SettingsStatus::Blank));
    assert_eq!(
        s.footer_help(),
        "Tab/←/→: tabs   ↑/↓: select   Enter: edit/toggle   S: save to disk   Esc: back"
    );
    s.enter_edit();
    assert!(matches!(s.status_line(), SettingsStatus::Editing(t) if t == SETTINGS_EDITING_TEXT));
    assert_eq!(s.footer_help(), "Backspace: delete   Arrows: move cursor   Enter: save   Esc: cancel");
    s.cancel_edit();
    s.confirm = Some(SettingsConfirm::ClearCache);
    assert!(matches!(
        s.status_line(),
        SettingsStatus::Confirm(t) if t == "Are you sure you want to clear the ROM cache? (Enter: Yes, Esc: Cancel)"
    ));
    assert_eq!(s.footer_help(), "Enter: confirm   Esc: cancel");
    assert_eq!(
        confirm_prompt(SettingsConfirm::Reset),
        "Are you sure you want to delete all settings? (Enter: Yes, Esc: Cancel)"
    );
}

#[test]
fn settings_device_pane_rows() {
    let mut s = screen();
    s.device_picker_loading = true;
    assert!(matches!(s.device_pane(), DevicePane::Loading("Loading devices...")));
    s.device_picker_loading = false;
    s.device_picker_error = Some("timeout".to_string());
    assert!(matches!(s.device_pane(), DevicePane::Failed(t) if t == "Could not load devices: timeout"));
    s.device_picker_error = None;
    s.devices = vec![
        SyncDevice { id: "d1".to_string(), name: Some("Deck".to_string()), sync_mode: "Api".to_string() },
        SyncDevice { id: "d2".to_string(), name: None, sync_mode: "File".to_string() },
    ];
    match s.device_pane() {
        DevicePane::Rows(v) => assert_eq!(v, vec!["Deck  [d1]  mode=Api", "(unnamed)  [d2]  mode=File"]),
        _ => panic!("expected rows"),
    }
}
