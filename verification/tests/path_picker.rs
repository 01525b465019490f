use romm_tui::keys::{KeyCode, KeyPress};
use romm_tui::path_picker::{
    try_confirm_event, DirEntry, PathKind, PathPicker, PathPickerEvent, PathPickerFocus,
    PathPickerMode, PickerRequest,
};

fn key(code: KeyCode) -> KeyPress {
    KeyPress {
        code,
        ctrl: false,
        is_press: true,
    }
}

fn entry(name: &str, is_dir: bool) -> DirEntry {
    DirEntry {
        name: name.to_string(),
        sort_name: name.to_string(),
        path: format!("/data/{name}"),
        is_dir,
    }
}

fn labels(p: &PathPicker) -> Vec<String> {
    p.entries.iter().map(|e| e.label.clone()).collect()
}

#[test]
fn picker_listing_sorts_and_labels_rows() {
    let mut p = PathPicker::new(PathPickerMode::Directory, "/data".to_string(), "/data".to_string());
    p.set_listing(
        Ok(vec![
            entry("zeta", true),
            entry("b.txt", false),
            entry("Alpha", true),
            entry("a.txt", false),
        ]),
        Some("/".to_string()),
        None,
    );
    assert_eq!(
        labels(&p),
        vec![
            "< Use this folder >",
            "..",
            "[Alpha]",
            "[zeta]",
            "a.txt  (file)",
            "b.txt  (file)"
        ]
    );
    assert!(p.io_error.is_none());
    assert_eq!(p.entries[1].path.as_deref(), Some("/"));
    assert!(p.entries[0].is_use_here);

    let mut f = PathPicker::new(PathPickerMode::File, "/data".to_string(), "/data".to_string());
    f.set_listing(
        Ok(vec![entry("rom.zip", false), entry("roms", true), entry("other", true)]),
        None,
        Some("ro".to_string()),
    );
    assert_eq!(labels(&f), vec!["[roms]", "rom.zip"]);
}

#[test]
fn picker_listing_error_keeps_use_here_row() {
    let mut p = PathPicker::new(PathPickerMode::Directory, "/x".to_string(), "/x".to_string());
    p.selected = 0;
    p.set_listing(Err("permission denied".to_string()), None, None);
    assert_eq!(labels(&p), vec!["< Use this folder >"]);
    assert_eq!(p.io_error.as_deref(), Some("permission denied"));
}

#[test]
fn picker_path_bar_edits_by_character() {
    let mut p = PathPicker::new(PathPickerMode::Directory, "/é".to_string(), "/".to_string());
    assert_eq!(p.path_cursor, 3);
    assert!(matches!(p.handle_key(&key(KeyCode::Left)), PickerRequest::Nothing));
    assert_eq!(p.path_cursor, 1);
    assert!(matches!(
        p.handle_key(&key(KeyCode::Char('ü'))),
        PickerRequest::ResolveAndList
    ));
    assert_eq!(p.path_text, "/üé");
    assert_eq!(p.path_cursor, 3);
    p.handle_key(&key(KeyCode::Right));
    assert_eq!(p.path_cursor, 5);
    p.handle_key(&key(KeyCode::Right));
    assert_eq!(p.path_cursor, 5);
    assert!(matches!(
        p.handle_key(&key(KeyCode::Backspace)),
        PickerRequest::ResolveAndList
    ));
    assert_eq!(p.path_text, "/ü");
    assert_eq!(p.path_cursor, 3);
    assert_eq!(p.path_line(), "▶ /ü▏");
    assert_eq!(p.cursor_column(), Some(4));
}

#[test]
fn picker_enter_and_ctrl_enter_requests() {
    let mut p = PathPicker::new(PathPickerMode::Directory, "  ".to_string(), "/home".to_string());
    let ctrl_enter = KeyPress {
        code: KeyCode::Enter,
        ctrl: true,
        is_press: true,
    };
    match p.handle_key(&ctrl_enter) {
        PickerRequest::Confirmed(x) => assert_eq!(x, "/home"),
        _ => panic!("expected the listed directory"),
    }
    assert!(matches!(p.handle_key(&key(KeyCode::Enter)), PickerRequest::Nothing));
    p.set_path_text(" new/dir ".to_string());
    match p.handle_key(&ctrl_enter) {
        PickerRequest::ConfirmTyped(x) => assert_eq!(x, "new/dir"),
        _ => panic!("expected the typed path"),
    }
    match p.handle_key(&key(KeyCode::Enter)) {
        PickerRequest::TryConfirm(x) => assert_eq!(x, "new/dir"),
        _ => panic!("expected a check of the typed path"),
    }
}

#[test]
fn picker_list_navigation_and_open_directory() {
    let mut p = PathPicker::new(PathPickerMode::Directory, "/data".to_string(), "/data".to_string());
    p.set_listing(Ok(vec![entry("roms", true), entry("x.bin", false)]), None, None);
    p.handle_key(&key(KeyCode::Tab));
    assert_eq!(p.focus, PathPickerFocus::List);
    p.handle_key(&key(KeyCode::End));
    assert_eq!(p.selected, 2);
    p.handle_key(&key(KeyCode::Char('j')));
    assert_eq!(p.selected, 2);
    assert!(matches!(p.handle_key(&key(KeyCode::Enter)), PickerRequest::Nothing));
    p.handle_key(&key(KeyCode::Char('k')));
    assert_eq!(p.selected, 1);
    assert!(matches!(p.handle_key(&key(KeyCode::Enter)), PickerRequest::List));
    assert_eq!(p.browse_dir, "/data/roms");
    assert_eq!(p.path_text, "/data/roms");
    assert_eq!(p.selected, 0);
    p.handle_key(&key(KeyCode::Up));
    assert_eq!(p.focus, PathPickerFocus::PathBar);
    p.focus = PathPickerFocus::List;
    p.handle_key(&key(KeyCode::Char('x')));
    assert_eq!(p.focus, PathPickerFocus::PathBar);
    assert_eq!(p.path_text, "/data/romsx");
    p.focus = PathPickerFocus::List;
    match p.handle_key(&key(KeyCode::Enter)) {
        PickerRequest::Confirmed(x) => assert_eq!(x, "/data/roms"),
        _ => panic!("expected the use-here row"),
    }
}

#[test]
fn typed_path_confirmation_follows_what_is_there() {
    let d = PathPickerMode::Directory;
    let f = PathPickerMode::File;
    let p = || "/data/roms".to_string();
    assert_eq!(try_confirm_event(d, p(), PathKind::Missing), PathPickerEvent::Confirmed(p()));
    assert_eq!(try_confirm_event(d, p(), PathKind::Directory), PathPickerEvent::Confirmed(p()));
    assert_eq!(try_confirm_event(d, p(), PathKind::File), PathPickerEvent::Browsing);
    assert_eq!(try_confirm_event(d, p(), PathKind::Other), PathPickerEvent::Browsing);
    assert_eq!(try_confirm_event(f, p(), PathKind::File), PathPickerEvent::Confirmed(p()));
    assert_eq!(try_confirm_event(f, p(), PathKind::Missing), PathPickerEvent::Browsing);
    assert_eq!(try_confirm_event(f, p(), PathKind::Directory), PathPickerEvent::Browsing);
}
