use romm_tui::settings::MessageTone;
use romm_tui::keys::{KeyCode, KeyPress};
use romm_tui::setup_wizard::{
    auth_kind_from_index, auth_labels, field_with_caret, masked, pairing_config, step_title,
    AuthConfig, AuthKind, CursorSpot, SetupWizard, Step, WizardConfig, WizardKeyOutcome,
};

fn key(code: KeyCode) -> KeyPress {
    KeyPress {
        code,
        ctrl: false,
        is_press: true,
    }
}

fn press(w: &mut SetupWizard, code: KeyCode) -> WizardKeyOutcome {
    w.handle_key(&key(code), true)
}

fn type_text(w: &mut SetupWizard, text: &str) {
    for c in text.chars() {
        press(w, KeyCode::Char(c));
    }
}

fn wizard() -> SetupWizard {
    SetupWizard::new("/home/me/Downloads/romm-cli".to_string())
}

#[test]
fn wizard_starts_on_url_with_https_prefix() {
    let w = wizard();
    assert_eq!(w.step, Step::Url);
    assert_eq!(w.url, "https://");
    assert_eq!(w.url_cursor, 8);
    assert!(w.use_https);
    assert_eq!(w.auth_kind, AuthKind::Pairing);
    assert_eq!(step_title(w.step), "Step 1/5 — RomM server URL");
}

#[test]
fn wizard_url_typing_and_invalid_url_error() {
    let mut w = wizard();
    type_text(&mut w, "romm.local");
    assert_eq!(w.url, "https://romm.local");
    press(&mut w, KeyCode::Backspace);
    assert_eq!(w.url, "https://romm.loca");
    press(&mut w, KeyCode::Left);
    press(&mut w, KeyCode::Char('X'));
    assert_eq!(w.url, "https://romm.locXa");
    assert_eq!(w.url_cursor, 17);

    let out = w.handle_key(&key(KeyCode::Enter), false);
    assert_eq!(out, WizardKeyOutcome::Handled);
    assert_eq!(w.step, Step::Url);
    assert_eq!(w.error.as_deref(), Some("Enter a valid server URL"));

    w.handle_key(&key(KeyCode::Enter), true);
    assert_eq!(w.step, Step::Https);
    assert!(w.error.is_none());
}

#[test]
fn wizard_esc_cancels_and_release_is_ignored() {
    let mut w = wizard();
    assert_eq!(press(&mut w, KeyCode::Esc), WizardKeyOutcome::Cancel);
    let release = KeyPress {
        code: KeyCode::Char('a'),
        ctrl: false,
        is_press: false,
    };
    assert_eq!(w.handle_key(&release, true), WizardKeyOutcome::Handled);
    assert_eq!(w.url, "https://");
}

#[test]
fn wizard_https_toggle_then_download_picker() {
    let mut w = wizard();
    press(&mut w, KeyCode::Enter);
    assert_eq!(w.step, Step::Https);
    assert_eq!(w.https_choice(), "[X] Use HTTPS (Recommended)");
    press(&mut w, KeyCode::Char(' '));
    assert!(!w.use_https);
    assert_eq!(w.https_choice(), "[ ] Use HTTPS (Insecure)");
    press(&mut w, KeyCode::Enter);
    assert_eq!(w.step, Step::Download);
    assert_eq!(press(&mut w, KeyCode::Enter), WizardKeyOutcome::ToDownloadPicker);
    assert_eq!(w.cursor_spot(), CursorSpot::Picker);

    w.download_confirmed(Err("not a directory".to_string()));
    assert_eq!(w.step, Step::Download);
    assert_eq!(w.error.as_deref(), Some("not a directory"));
    w.download_confirmed(Ok("/data/roms".to_string()));
    assert_eq!(w.step, Step::AuthMenu);
    assert_eq!(w.download_path, "/data/roms");
    assert!(w.error.is_none());
}

#[test]
fn wizard_auth_menu_moves_within_bounds() {
    let mut w = wizard();
    w.step = Step::AuthMenu;
    press(&mut w, KeyCode::Up);
    assert_eq!(w.auth_menu_selected, 0);
    for _ in 0..5 {
        press(&mut w, KeyCode::Char('j'));
    }
    assert_eq!(w.auth_menu_selected, 3);
    press(&mut w, KeyCode::Char('k'));
    assert_eq!(w.auth_menu_selected, 2);
    press(&mut w, KeyCode::Enter);
    assert_eq!(w.auth_kind, AuthKind::Bearer);
    assert_eq!(w.step, Step::Bearer);
    assert_eq!(auth_kind_from_index(7), AuthKind::ApiKey);
    assert_eq!(auth_labels()[0], "Pair with Web UI (8-character code) (Recommended)");
}

#[test]
fn wizard_basic_auth_flow_builds_config() {
    let mut w = wizard();
    w.step = Step::AuthMenu;
    press(&mut w, KeyCode::Down);
    press(&mut w, KeyCode::Enter);
    assert_eq!(w.step, Step::BasicUser);
    type_text(&mut w, " bob ");
    press(&mut w, KeyCode::Tab);
    assert_eq!(w.step, Step::BasicPass);
    type_text(&mut w, "s3cret!");
    press(&mut w, KeyCode::Backspace);
    assert_eq!(w.password, "s3cret");
    assert_eq!(masked(&w.password), "••••••");
    assert_eq!(w.cursor_spot(), CursorSpot::At(19, 6));
    press(&mut w, KeyCode::Enter);
    assert_eq!(w.step, Step::Summary);

    let cfg = w
        .build_config("https://romm.local", Ok("/data/roms".to_string()), None)
        .unwrap();
    assert_eq!(cfg.base_url, "https://romm.local");
    assert_eq!(cfg.download_dir, "/data/roms");
    match cfg.auth {
        Some(AuthConfig::Basic { username, password }) => {
            assert_eq!(username, "bob");
            assert_eq!(password, "s3cret");
        }
        _ => panic!("expected basic credentials"),
    }

    press(&mut w, KeyCode::Enter);
    assert!(w.testing);
    assert_eq!(w.footer_keys(), "Please wait…");
    press(&mut w, KeyCode::Char('x'));
    assert_eq!(w.password, "s3cret");
}

#[test]
fn wizard_build_config_errors_in_order() {
    let mut w = wizard();
    w.auth_kind = AuthKind::Basic;
    assert_eq!(
        w.build_config("", Err("bad dir".to_string()), None).unwrap_err(),
        "Server URL cannot be empty"
    );
    assert_eq!(
        w.build_config("https://x", Err("bad dir".to_string()), None)
            .unwrap_err(),
        "bad dir"
    );
    assert_eq!(
        w.build_config("https://x", Ok("/d".to_string()), None)
            .unwrap_err(),
        "Username cannot be empty"
    );
    w.username = "bob".to_string();
    assert_eq!(
        w.build_config("https://x", Ok("/d".to_string()), None)
            .unwrap_err(),
        "Password cannot be empty"
    );
    w.reuse_keyring_password = true;
    assert_eq!(w.keyring_entry_needed(), Some("API_PASSWORD"));
    assert_eq!(
        w.build_config("https://x", Ok("/d".to_string()), None)
            .unwrap_err(),
        "Password not in OS keyring; enter a password or run romm-cli init"
    );
    let cfg = w
        .build_config("https://x", Ok("/d".to_string()), Some("kr".to_string()))
        .unwrap();
    assert!(matches!(cfg.auth, Some(AuthConfig::Basic { ref password, .. }) if password == "kr"));

    w.auth_kind = AuthKind::Bearer;
    w.bearer_token = "   ".to_string();
    assert_eq!(
        w.build_config("https://x", Ok("/d".to_string()), None)
            .unwrap_err(),
        "Bearer token cannot be empty"
    );
    w.bearer_token = "  tok  ".to_string();
    let cfg = w
        .build_config("https://x", Ok("/d".to_string()), None)
        .unwrap();
    assert!(matches!(cfg.auth, Some(AuthConfig::Bearer { ref token }) if token == "tok"));

    w.auth_kind = AuthKind::ApiKey;
    assert_eq!(
        w.build_config("https://x", Ok("/d".to_string()), None)
            .unwrap_err(),
        "Header name cannot be empty"
    );
    w.api_header = "X-Api-Key".to_string();
    assert_eq!(
        w.build_config("https://x", Ok("/d".to_string()), None)
            .unwrap_err(),
        "API key cannot be empty"
    );

    w.auth_kind = AuthKind::Pairing;
    assert_eq!(
        w.build_config("https://x", Ok("/d".to_string()), None)
            .unwrap_err(),
        "Pairing auth is applied when connecting; use the pairing code step and connect"
    );
}

#[test]
fn wizard_pairing_request_and_config() {
    let mut w = wizard();
    assert_eq!(
        w.pairing_request("https://x", Ok("/d".to_string()))
            .unwrap_err(),
        "Pairing code cannot be empty"
    );
    w.step = Step::PairingCode;
    w.handle_paste(" ABCD\r\n1234 ");
    assert_eq!(w.pairing_code, " ABCD1234 ");
    assert_eq!(w.pairing_cursor, 10);
    let req = w
        .pairing_request("https://x", Ok("/d".to_string()))
        .unwrap();
    assert_eq!(req.code, "ABCD1234");
    let cfg = pairing_config(req, false, "raw-token".to_string());
    assert!(!cfg.use_https);
    assert!(matches!(cfg.auth, Some(AuthConfig::Bearer { ref token }) if token == "raw-token"));
}

#[test]
fn wizard_paste_into_url_and_password() {
    let mut w = wizard();
    w.handle_paste("romm.example.com\n");
    assert_eq!(w.url, "https://romm.example.com");
    assert_eq!(w.url_cursor, 24);
    w.handle_paste("\n\r");
    assert_eq!(w.url, "https://romm.example.com");

    w.step = Step::BasicPass;
    w.reuse_keyring_password = true;
    w.handle_paste("pw");
    assert_eq!(w.password, "pw");
    assert!(!w.reuse_keyring_password);
}

#[test]
fn wizard_auth_only_reuses_keyring_secret() {
    let cfg = WizardConfig {
        base_url: "https://romm.local".to_string(),
        download_dir: "/data".to_string(),
        use_https: false,
        auth: Some(AuthConfig::Bearer {
            token: "abc".to_string(),
        }),
    };
    let w = SetupWizard::new_auth_only(&cfg, true);
    assert_eq!(w.step, Step::AuthMenu);
    assert_eq!(w.auth_kind, AuthKind::Bearer);
    assert_eq!(w.auth_menu_selected, 2);
    assert_eq!(w.bearer_token, "");
    assert!(w.reuse_keyring_bearer);
    assert_eq!(w.keyring_entry_needed(), Some("API_TOKEN"));

    let w = SetupWizard::new_auth_only(&cfg, false);
    assert_eq!(w.bearer_token, "abc");
    assert_eq!(w.bearer_cursor, 3);
    assert_eq!(w.keyring_entry_needed(), None);
}

#[test]
fn wizard_summary_lines_and_caret() {
    let mut w = wizard();
    w.download_path = "  /data/roms ".to_string();
    w.pairing_code = "AB".to_string();
    let lines = w.summary_lines("https://romm.local");
    assert_eq!(
        lines,
        vec![
            "Server: https://romm.local".to_string(),
            "ROMs Dir: /data/roms".to_string(),
            "Use HTTPS: Yes".to_string(),
            "Auth: Pair with Web UI (code entered)".to_string(),
            String::new(),
            "Enter: test connection and save   Esc: quit".to_string(),
        ]
    );
    w.error = Some("boom".to_string());
    assert_eq!(w.summary_lines("o")[5], "Last error: boom");
    assert_eq!(field_with_caret("abc", 1), "a▏bc");
    assert_eq!(field_with_caret("abc", 9), "abc▏");
}

#[test]
fn wizard_connect_finished_messages() {
    let mut w = wizard();
    w.testing = true;
    let m = w.connect_finished(Ok(true));
    assert_eq!(
        m,
        Some(("Authentication updated successfully".to_string(), MessageTone::Success))
    );
    assert!(!w.testing);
    w.testing = true;
    let m = w.connect_finished(Ok(false));
    assert_eq!(m.map(|(_, t)| t), Some(MessageTone::Warning));
    w.testing = true;
    assert_eq!(w.connect_finished(Err("refused".to_string())), None);
    assert_eq!(w.error.as_deref(), Some("refused"));
    assert!(!w.testing);
}

#[test]
fn wizard_field_lines_and_keyring_notes() {
    let mut w = wizard();
    w.step = Step::BasicUser;
    w.username = "bob".to_string();
    w.user_cursor = 1;
    assert_eq!(w.username_line(), "b▏ob");
    w.step = Step::BasicPass;
    assert_eq!(w.username_line(), "bob");
    assert_eq!(w.password_keyring_hint(), "");
    w.reuse_keyring_password = true;
    assert_eq!(
        w.password_keyring_hint(),
        "\n\n(stored in OS keyring — leave blank to keep, or type a new password)"
    );
    w.password = "x".to_string();
    assert_eq!(w.password_keyring_hint(), "");

    w.step = Step::ApiHeader;
    w.api_header = "X-Key".to_string();
    w.header_cursor = 5;
    assert_eq!(w.header_line(), "X-Key▏");
    w.step = Step::ApiKey;
    assert_eq!(w.header_line(), "X-Key");
    w.reuse_keyring_api_key = true;
    assert_eq!(
        w.api_key_keyring_hint(),
        "\n\n(stored in OS keyring — leave blank to keep, or type a new key)"
    );

    assert_eq!(w.bearer_keyring_note(), None);
    w.reuse_keyring_bearer = true;
    assert_eq!(
        w.bearer_keyring_note(),
        Some("Token stored in OS keyring — leave blank to keep, or type a new token.")
    );
}
