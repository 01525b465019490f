use romm_tui::keyboard_help::{help_popup, KEYBOARD_HELP_TEXT};
use romm_tui::theme::{
    next_theme_id, next_theme_id_in, prev_theme_id, prev_theme_id_in, theme_display_name,
    theme_id_to_resolve_in, DEFAULT_THEME_ID,
};

#[test]
fn theme_cycle_wraps_both_ways() {
    assert_eq!(next_theme_id("catppuccin"), "dracula");
    assert_eq!(next_theme_id("terminal"), "catppuccin");
    assert_eq!(prev_theme_id("catppuccin"), "terminal");
    assert_eq!(prev_theme_id("nord"), "dracula");
    assert_eq!(next_theme_id("not-a-theme"), "dracula");
    assert_eq!(prev_theme_id(&next_theme_id("tokyo-night")), "tokyo-night");
}

#[test]
fn theme_cycle_on_empty_list_uses_default() {
    let empty: Vec<&'static str> = Vec::new();
    assert_eq!(next_theme_id_in(&empty, "x"), DEFAULT_THEME_ID);
    assert_eq!(prev_theme_id_in(&empty, "x"), "terminal");
}

#[test]
fn theme_unknown_id_resolves_to_terminal() {
    let ids = vec!["catppuccin", "terminal"];
    assert_eq!(theme_id_to_resolve_in(&ids, "not-a-theme", false), "terminal");
    assert_eq!(theme_id_to_resolve_in(&ids, "not-a-theme", true), "not-a-theme");
    assert_eq!(theme_id_to_resolve_in(&ids, "no-color", false), "no-color");
    assert_eq!(theme_id_to_resolve_in(&ids, "catppuccin", false), "catppuccin");
}

#[test]
fn keyboard_help_popup_is_centred_and_clamped() {
    assert_eq!(help_popup(100, 50), (10, 5, 80, 40));
    assert_eq!(help_popup(30, 10), (0, 0, 30, 10));
    assert_eq!(help_popup(45, 17), (2, 1, 40, 15));
    assert!(KEYBOARD_HELP_TEXT.starts_with("Global\n"));
    assert!(KEYBOARD_HELP_TEXT.ends_with("to close this help.\n"));
}

#[test]
fn theme_display_names_follow_the_table() {
    // With NO_COLOR set in the environment every theme shows as "No Color".
    let check = |id: &str, name: &str| {
        let got = theme_display_name(id);
        assert!(got == name || got == "No Color", "{id}: {got}");
    };
    check("dracula", "Dracula");
    check("rose-pine", "Rosé Pine");
    check("unknown-theme", "Terminal Native");
    check("no-color", "Catppuccin Mocha");
}
