use romm_tui::browse::{build_sections, BrowseScreen, ViewMode};
use romm_tui::execute::{ExecuteScreen, FocusedField};
use romm_tui::json::JsonValue;
use romm_tui::keys::{
    allows_global_question_help, blocks_global_d_shortcut, is_force_quit_key, key_event_action,
    route_global_key, GlobalKeyAction, KeyCode, KeyEventAction, KeyPress, ScreenKind,
};
use romm_tui::main_menu::MainMenuScreen;
use romm_tui::openapi::{ApiEndpoint, ApiParameter, EndpointRegistry};
use romm_tui::runtime::{loop_control_for, LoopControl, RuntimeOptions};
use romm_tui::screen_keys::{
    deferred_load_step, handle_browse_key, handle_execute_key, handle_main_menu_key,
    submit_plan, BrowseAction, DeferredStep, ExecuteAction, MainMenuAction,
};
use romm_tui::loading::DeferredRomLoad;
use romm_tui::requests::GetRoms;
use romm_tui::splash::{auto_dismiss_due, StartupSplash};

fn param(name: &str, default: Option<&str>) -> ApiParameter {
    ApiParameter {
        name: name.to_string(),
        param_type: "string".to_string(),
        required: false,
        default: default.map(|s| s.to_string()),
        description: None,
    }
}

fn endpoint(method: &str, path: &str, tags: &[&str]) -> ApiEndpoint {
    ApiEndpoint {
        method: method.to_string(),
        path: path.to_string(),
        summary: None,
        description: None,
        query_params: vec![],
        path_params: vec![],
        has_body: false,
        tags: tags.iter().map(|t| t.to_string()).collect(),
    }
}

#[test]
fn ctrl_c_is_treated_as_force_quit() {
    let ctrl_c = KeyPress { code: KeyCode::Char('c'), ctrl: true, is_press: true };
    assert!(is_force_quit_key(&ctrl_c));
    let plain_c = KeyPress { code: KeyCode::Char('c'), ctrl: false, is_press: true };
    assert!(!is_force_quit_key(&plain_c));
    assert_eq!(key_event_action(&ctrl_c), KeyEventAction::ForceQuit);
    let release = KeyPress { code: KeyCode::Char('x'), ctrl: false, is_press: false };
    assert_eq!(key_event_action(&release), KeyEventAction::Ignore);
}

#[test]
fn global_keys_follow_overlay_precedence() {
    let r = |e, s, h, scr, k| route_global_key(e, s, h, scr, false, false, k);
    assert_eq!(r(true, true, true, ScreenKind::MainMenu, KeyCode::Char('x')), GlobalKeyAction::KeepError);
    assert_eq!(r(true, false, false, ScreenKind::MainMenu, KeyCode::Esc), GlobalKeyAction::DismissError);
    assert_eq!(r(false, true, false, ScreenKind::MainMenu, KeyCode::Char('x')), GlobalKeyAction::DismissSplash);
    assert_eq!(r(false, false, true, ScreenKind::MainMenu, KeyCode::F(1)), GlobalKeyAction::CloseHelp);
    assert_eq!(r(false, false, true, ScreenKind::MainMenu, KeyCode::Up), GlobalKeyAction::KeepHelp);
    assert_eq!(r(false, false, false, ScreenKind::Search, KeyCode::Char('?')), GlobalKeyAction::ToScreen);
    assert_eq!(r(false, false, false, ScreenKind::MainMenu, KeyCode::Char('?')), GlobalKeyAction::OpenHelp);
    assert_eq!(r(false, false, false, ScreenKind::MainMenu, KeyCode::Char('d')), GlobalKeyAction::ToggleDownloads);
    assert_eq!(r(false, false, false, ScreenKind::Settings, KeyCode::Char('d')), GlobalKeyAction::ToScreen);
    assert!(blocks_global_d_shortcut(ScreenKind::LibraryBrowse, true));
    assert!(!blocks_global_d_shortcut(ScreenKind::LibraryBrowse, false));
    assert!(!allows_global_question_help(ScreenKind::Settings, false, true));
    assert!(allows_global_question_help(ScreenKind::Settings, false, false));
}

#[test]
fn main_menu_wraps_and_maps_entries() {
    let mut m = MainMenuScreen::new();
    assert_eq!(handle_main_menu_key(&mut m, KeyCode::Up), MainMenuAction::Stay);
    assert_eq!(m.selected, 5);
    assert_eq!(handle_main_menu_key(&mut m, KeyCode::Enter), MainMenuAction::Stay);
    assert_eq!(handle_main_menu_key(&mut m, KeyCode::Char('j')), MainMenuAction::Stay);
    assert_eq!(m.selected, 0);
    assert_eq!(handle_main_menu_key(&mut m, KeyCode::Enter), MainMenuAction::OpenLibrary);
    m.selected = 4;
    assert_eq!(handle_main_menu_key(&mut m, KeyCode::Enter), MainMenuAction::Quit);
    assert_eq!(handle_main_menu_key(&mut m, KeyCode::Char('q')), MainMenuAction::Quit);
    assert_eq!(MainMenuScreen::labels()[4], "API (Expert)");
}

#[test]
fn sections_group_by_tag_then_path_segment() {
    let eps = vec![
        endpoint("GET", "/api/roms/{id}", &[]),
        endpoint("GET", "/api/platforms", &["platforms"]),
        endpoint("GET", "/health", &[]),
        endpoint("POST", "/api/roms", &[]),
        endpoint("GET", "/", &[]),
    ];
    let secs = build_sections(&eps);
    let names: Vec<&str> = secs.iter().map(|s| s.name.as_str()).collect();
    assert_eq!(names, vec!["Other", "platforms", "roms"]);
    assert_eq!(secs[0].endpoint_indices, vec![2, 4]);
    assert_eq!(secs[2].endpoint_indices, vec![0, 3]);
}

#[test]
fn browse_navigation_and_enter_opens_endpoint() {
    let reg = EndpointRegistry { endpoints: vec![
        endpoint("GET", "/api/roms", &[]),
        endpoint("POST", "/api/roms", &[]),
        endpoint("GET", "/api/platforms", &[]),
    ] };
    let mut b = BrowseScreen::new(reg);
    assert_eq!(b.sections.len(), 2);
    assert!(matches!(handle_browse_key(&mut b, KeyCode::Down), BrowseAction::Stay));
    assert_eq!(b.selected_section, 1);
    assert!(matches!(handle_browse_key(&mut b, KeyCode::Enter), BrowseAction::Stay));
    assert_eq!(b.view_mode, ViewMode::Endpoints);
    assert!(matches!(handle_browse_key(&mut b, KeyCode::Up), BrowseAction::Stay));
    assert_eq!(b.selected_endpoint, 1);
    match handle_browse_key(&mut b, KeyCode::Enter) {
        BrowseAction::Execute(e) => assert_eq!(e.method, "POST"),
        _ => panic!("expected an endpoint"),
    }
    assert!(matches!(handle_browse_key(&mut b, KeyCode::Esc), BrowseAction::BackToMenu));
}

#[test]
fn request_editor_cycles_focus_and_edits() {
    let mut ep = endpoint("GET", "/api/roms/{id}", &[]);
    ep.path_params = vec![param("id", None)];
    ep.query_params = vec![param("limit", Some("50")), param("q", None)];
    let mut e = ExecuteScreen::new(ep);
    assert_eq!(e.focused_field, FocusedField::PathParams);
    handle_execute_key(&mut e, KeyCode::Char('4'));
    handle_execute_key(&mut e, KeyCode::Char('2'));
    handle_execute_key(&mut e, KeyCode::Backspace);
    assert_eq!(e.path_params[0].1, "4");
    handle_execute_key(&mut e, KeyCode::Tab);
    assert_eq!(e.focused_field, FocusedField::QueryParams);
    handle_execute_key(&mut e, KeyCode::BackTab);
    assert_eq!(e.focused_field, FocusedField::PathParams);
    assert_eq!(handle_execute_key(&mut e, KeyCode::Enter), ExecuteAction::Submit);
    let plan = submit_plan(&e).ok().expect("plan");
    assert_eq!(plan.path, "/api/roms/4");
    assert_eq!(plan.query, vec![("limit".to_string(), "50".to_string())]);
    assert!(!plan.send_body);
    e.path_params[0].1.clear();
    assert!(submit_plan(&e).is_err());
}

#[test]
fn deferred_load_waits_then_fetches() {
    let d = DeferredRomLoad {
        key: None,
        request: Some(GetRoms::default()),
        expected: 3,
        context: "list_move_down",
    };
    assert_eq!(deferred_load_step(&d, true, 0, 7), DeferredStep::Wait);
    assert_eq!(deferred_load_step(&d, false, 300_000_000, 7), DeferredStep::Fetch { gen: 8 });
    assert_eq!(deferred_load_step(&d, false, 300_000_000, u64::MAX), DeferredStep::Fetch { gen: u64::MAX });
    let empty = DeferredRomLoad { key: None, request: None, expected: 0, context: "x" };
    assert_eq!(deferred_load_step(&empty, false, 300_000_000, 1), DeferredStep::Idle { gen: 2 });
}

#[test]
fn splash_and_runtime_helpers() {
    assert!(!auto_dismiss_due(2_800_000_000));
    assert!(auto_dismiss_due(2_800_000_001));
    let s = StartupSplash::new("https://romm".to_string(), None);
    assert!(!s.should_auto_dismiss());
    assert_eq!(s.version_line(), "Connected (heartbeat version unavailable)");
    assert_eq!(loop_control_for(true), LoopControl::Break);
    assert!(!RuntimeOptions::default().bracketed_paste);
}

#[test]
fn json_compact_text_matches_serde() {
    let v = JsonValue::Object(vec![
        ("a".to_string(), JsonValue::Array(vec![JsonValue::Bool(true), JsonValue::Null])),
        ("b\"".to_string(), JsonValue::Number("1.5".to_string())),
    ]);
    assert_eq!(v.to_compact_string(), r#"{"a":[true,null],"b\"":1.5}"#);
}

#[test]
fn browse_next_then_previous_returns_to_section() {
    let reg = EndpointRegistry { endpoints: vec![
        endpoint("GET", "/api/roms", &[]),
        endpoint("POST", "/api/roms", &[]),
        endpoint("GET", "/api/platforms", &[]),
    ] };
    let mut b = BrowseScreen::new(reg);
    for start in 0..2 {
        b.selected_section = start;
        b.next();
        b.previous();
        assert_eq!(b.selected_section, start);
        assert_eq!(b.selected_endpoint, 0);
    }
}

#[test]
fn execute_tab_then_backtab_restores_focus() {
    let mut ep = endpoint("POST", "/api/roms/{id}/{file}", &[]);
    ep.path_params = vec![param("id", None), param("file", None)];
    ep.query_params = vec![param("limit", None)];
    ep.has_body = true;
    let mut e = ExecuteScreen::new(ep);
    let mut seen = Vec::new();
    for _ in 0..4 {
        seen.push((e.focused_field, e.path_param_input_idx, e.param_input_idx));
        let before = (e.focused_field, e.path_param_input_idx, e.param_input_idx);
        e.next_field();
        let after = (e.focused_field, e.path_param_input_idx, e.param_input_idx);
        e.previous_field();
        assert_eq!(e.focused_field, before.0);
        match before.0 {
            FocusedField::PathParams => assert_eq!(e.path_param_input_idx, before.1),
            FocusedField::QueryParams => assert_eq!(e.param_input_idx, before.2),
            FocusedField::Body => {}
        }
        e.next_field();
        assert_eq!((e.focused_field, e.path_param_input_idx, e.param_input_idx), after);
    }
    assert_eq!(seen[0].0, FocusedField::PathParams);
    assert_eq!(seen[2].0, FocusedField::QueryParams);
    assert_eq!(seen[3].0, FocusedField::Body);
}
