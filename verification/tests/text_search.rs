use romm_tui::text_search::{filter_source_indices, jump_next_index, normalize_label, SearchState, LibrarySearchMode};

#[test]
fn filter_source_indices_finds_substrings() {
    let labels = vec![
        "Alpha".to_string(),
        "Beta".to_string(),
        "Alphabet".to_string(),
    ];
    let q = normalize_label("alp");
    let idx = filter_source_indices(&labels, &q);
    assert_eq!(idx, vec![0, 2]);
}

#[test]
fn jump_next_index_wraps() {
    let labels = vec!["a".into(), "bb".into(), "ab".into()];
    let q = normalize_label("b");
    assert_eq!(jump_next_index(&labels, 0, &q, false), Some(1));
    assert_eq!(jump_next_index(&labels, 1, &q, true), Some(2));
    assert_eq!(jump_next_index(&labels, 2, &q, true), Some(1));
}

#[test]
fn normalize_label_strips_diacritics_and_lowercases() {
    assert_eq!(normalize_label("Pokémon ÉLITE"), "pokemon elite");
}

#[test]
fn empty_query_keeps_all_and_never_jumps() {
    let labels = vec!["x".to_string(), "y".to_string()];
    assert_eq!(filter_source_indices(&labels, ""), vec![0, 1]);
    assert_eq!(jump_next_index(&labels, 0, "", true), None);
    assert_eq!(jump_next_index(&labels, 0, "zzz", true), None);
}

#[test]
fn search_state_filter_lifecycle() {
    let mut s = SearchState::new();
    assert!(!s.filter_active());
    s.enter(LibrarySearchMode::Filter);
    s.add_char('A');
    assert_eq!(s.normalized_query, "a");
    assert!(s.filter_active());
    s.commit_filter_bar();
    assert!(s.mode.is_none());
    assert!(s.filter_browsing);
    assert!(s.filter_active());
    s.delete_char();
    assert_eq!(s.query, "");
    assert!(!s.filter_active());
    s.enter(LibrarySearchMode::Filter);
    s.add_char(' ');
    s.commit_filter_bar();
    assert!(!s.filter_browsing, "blank filter does not browse");
    s.clear();
    assert!(s.mode.is_none() && s.query.is_empty());
}
