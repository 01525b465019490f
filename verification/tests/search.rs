use romm_tui::search::SearchScreen;
use romm_tui::types::{Rom, RomList};

fn empty_list() -> RomList {
    RomList {
        items: vec![],
        total: 0,
        limit: 50,
        offset: 0,
    }
}

fn rom(id: u64, name: &str, fs_name: &str) -> Rom {
    Rom {
        id,
        platform_id: 1,
        platform_slug: None,
        platform_fs_slug: None,
        platform_custom_name: None,
        platform_display_name: None,
        fs_name: fs_name.to_string(),
        fs_name_no_tags: name.to_string(),
        fs_name_no_ext: name.to_string(),
        fs_extension: "zip".to_string(),
        fs_path: format!("/{id}.zip"),
        fs_size_bytes: 1,
        name: name.to_string(),
        slug: None,
        summary: None,
        path_cover_small: None,
        path_cover_large: None,
        url_cover: None,
        is_unidentified: false,
        is_identified: true,
    }
}

#[test]
fn set_results_records_last_searched_query() {
    let mut s = SearchScreen::new();
    s.query = "mario".to_string();
    s.set_results(empty_list());
    assert_eq!(s.last_searched_query.as_deref(), Some("mario"));
    assert!(s.results_match_current_query());
}

#[test]
fn editing_query_after_search_marks_stale() {
    let mut s = SearchScreen::new();
    s.query = "mario".to_string();
    s.cursor_pos = s.query.len();
    s.set_results(empty_list());
    assert!(s.results_match_current_query());
    s.delete_char();
    assert_eq!(s.query, "mari");
    assert!(!s.results_match_current_query());
}

#[test]
fn clear_results_clears_last_searched_query() {
    let mut s = SearchScreen::new();
    s.query = "a".to_string();
    s.set_results(empty_list());
    s.clear_results();
    assert!(s.last_searched_query.is_none());
}

#[test]
fn typing_inserts_at_cursor_and_moves_it() {
    let mut s = SearchScreen::new();
    s.add_char('a');
    s.add_char('c');
    s.cursor_left();
    s.add_char('b');
    assert_eq!(s.query, "abc");
    assert_eq!(s.cursor_pos, 2);
    s.cursor_right();
    s.cursor_right();
    assert_eq!(s.cursor_pos, 3);
}

#[test]
fn delete_at_start_keeps_query() {
    let mut s = SearchScreen::new();
    s.query = "ab".to_string();
    s.cursor_pos = 0;
    s.delete_char();
    assert_eq!(s.query, "ab");
    assert_eq!(s.cursor_pos, 0);
}

#[test]
fn results_are_grouped_and_navigation_wraps() {
    let mut s = SearchScreen::new();
    let list = RomList {
        items: vec![
            rom(1, "Zelda", "zelda.zip"),
            rom(2, "Mario", "mario.zip"),
            rom(3, "Mario", "mario-dlc.zip"),
        ],
        total: 3,
        limit: 50,
        offset: 0,
    };
    s.set_results(list);
    let (base, others) = s.get_selected_group().expect("group");
    assert_eq!(base.name, "Mario");
    assert_eq!(others.len(), 1);
    s.next();
    assert_eq!(s.selected, 1);
    s.next();
    assert_eq!(s.selected, 0);
    s.previous();
    assert_eq!(s.selected, 1);
}

#[test]
fn typing_then_backspace_restores_query_and_cursor() {
    let mut s = SearchScreen::new();
    for c in "mario".chars() {
        s.add_char(c);
    }
    s.cursor_left();
    s.cursor_left();
    let before = (s.query.clone(), s.cursor_pos);
    s.add_char('x');
    assert_eq!(s.query, "marxio");
    s.delete_char();
    assert_eq!((s.query.clone(), s.cursor_pos), before);
    s.cursor_left();
    s.cursor_right();
    assert_eq!(s.cursor_pos, before.1);
}

#[test]
fn backspace_then_retype_restores_query_and_cursor() {
    let mut s = SearchScreen::new();
    for c in "zelda".chars() {
        s.add_char(c);
    }
    s.cursor_left();
    s.cursor_left();
    s.delete_char();
    assert_eq!(s.query, "zeda");
    assert_eq!(s.cursor_pos, 2);
    s.add_char('l');
    assert_eq!(s.query, "zelda");
    assert_eq!(s.cursor_pos, 3);
}
