use romm_tui::json::JsonValue;
use romm_tui::keys::KeyCode;
use romm_tui::result::{
    collect_image_urls, highlight_json_line, items_from_value, split_text_lines, table_row_cells,
    table_window, ResultAction, ResultScreen, ResultViewMode, Token, TokenKind,
};

fn conv(v: &serde_json::Value) -> JsonValue {
    match v {
        serde_json::Value::Null => JsonValue::Null,
        serde_json::Value::Bool(b) => JsonValue::Bool(*b),
        serde_json::Value::Number(n) => JsonValue::Number(n.to_string()),
        serde_json::Value::String(s) => JsonValue::Str(s.clone()),
        serde_json::Value::Array(a) => JsonValue::Array(a.iter().map(conv).collect()),
        serde_json::Value::Object(m) => {
            JsonValue::Object(m.iter().map(|(k, v)| (k.clone(), conv(v))).collect())
        }
    }
}

fn screen(text: &str) -> ResultScreen {
    let value: serde_json::Value = serde_json::from_str(text).expect("json");
    ResultScreen::new(conv(&value))
}

fn kinds(line: &str) -> Vec<(String, TokenKind)> {
    highlight_json_line(line.as_bytes())
        .iter()
        .map(|t: &Token| (line[t.start..t.end].to_string(), t.kind))
        .collect()
}

#[test]
fn result_highlight_key_string_number_literal() {
    let k = kinds(r#"  "name": "Mario", "n": -1.5e3, "ok": true, "x": null"#);
    let non_plain: Vec<(String, TokenKind)> = k
        .into_iter()
        .filter(|(_, kind)| *kind != TokenKind::Plain)
        .collect();
    assert_eq!(
        non_plain,
        vec![
            ("\"name\"".to_string(), TokenKind::Key),
            ("\"Mario\"".to_string(), TokenKind::Str),
            ("\"n\"".to_string(), TokenKind::Key),
            ("-1.5e3".to_string(), TokenKind::Number),
            ("\"ok\"".to_string(), TokenKind::Key),
            ("true".to_string(), TokenKind::Literal),
            ("\"x\"".to_string(), TokenKind::Key),
            ("null".to_string(), TokenKind::Literal),
        ]
    );
}

#[test]
fn result_highlight_escaped_quote_and_unterminated_string() {
    let k = kinds(r#""a\"b" : false"#);
    assert_eq!(k[0], ("\"a\\\"b\"".to_string(), TokenKind::Key));
    assert_eq!(k.last().unwrap().1, TokenKind::Literal);
    let k = kinds(r#""open"#);
    assert_eq!(k, vec![("\"open".to_string(), TokenKind::Str)]);
    assert!(kinds("").is_empty());
}

#[test]
fn result_split_lines_like_str_lines() {
    assert_eq!(split_text_lines("a\r\nb\n\nc\n"), vec!["a", "b", "", "c"]);
    assert_eq!(split_text_lines("x"), vec!["x"]);
    assert!(split_text_lines("").is_empty());
}

#[test]
fn result_items_table_and_rows() {
    let s = screen(
        r#"{"items":[{"id":1,"name":"A","platform_id":4,"platform_display_name":"SNES","url_cover":"http://c/1"},{"id":2,"name":"B","platform_id":5}],"total":10}"#,
    );
    assert_eq!(s.table_row_count, 2);
    assert_eq!(s.view_mode, ResultViewMode::Json);
    let (count, items) = items_from_value(&s.raw);
    assert_eq!(count, 2);
    let items = items.unwrap();
    assert_eq!(
        table_row_cells(&items[0]),
        (
            "1".to_string(),
            "A".to_string(),
            "SNES (4)".to_string(),
            "[IMG]"
        )
    );
    assert_eq!(
        table_row_cells(&items[1]),
        ("2".to_string(), "B".to_string(), "(5)".to_string(), "-")
    );
    let small = screen(r#"{"items":[1,2,3],"total":1}"#);
    assert_eq!(small.table_row_count, 1);
    let none = screen(r#"[1,2]"#);
    assert_eq!(none.table_row_count, 0);
}

#[test]
fn result_navigation_and_view_switch() {
    let mut s = screen(r#"{"items":[{"id":1},{"id":2},{"id":3}]}"#);
    s.switch_view_mode();
    assert_eq!(s.view_mode, ResultViewMode::Table);
    s.table_previous();
    assert_eq!(s.table_selected, 2);
    s.table_next();
    assert_eq!(s.table_selected, 0);
    s.table_page_down();
    assert_eq!(s.table_selected, 2);
    s.table_page_up();
    assert_eq!(s.table_selected, 0);
    s.switch_view_mode();
    assert_eq!(s.view_mode, ResultViewMode::Json);

    let lines = s.highlighted_lines.len();
    s.scroll_down(1000);
    assert_eq!(s.scroll, lines - 1);
    s.scroll_up(3);
    assert_eq!(s.scroll, lines - 4);
    s.scroll_up(1000);
    assert_eq!(s.scroll, 0);

    let mut empty = screen(r#"{"a":1}"#);
    empty.switch_view_mode();
    assert_eq!(empty.view_mode, ResultViewMode::Json);
}

#[test]
fn result_image_urls_and_open_target() {
    let value: serde_json::Value = serde_json::from_str(
        r#"{"a":{"url_cover":"c1","url_box_cover":"c2","url_x":"no"},"b":[{"url_logo":"l1"},{"url_logo":""}]}"#,
    )
    .unwrap();
    let urls = collect_image_urls(&conv(&value));
    assert_eq!(urls, vec!["c2", "c1", "l1"]);

    let mut s = screen(r#"{"n":1}"#);
    assert_eq!(s.open_selected_target(), None);
    assert_eq!(s.message.as_deref(), Some("No image URL in result"));
    assert_eq!(s.footer_text(), "No image URL in result");
    s.clear_message();
    assert_eq!(
        s.footer_text(),
        "j: JSON | t: Table | o: Open image | ↑↓: Scroll | Esc: Back"
    );

    let mut t = screen(r#"{"items":[{"url_logo":"L"},{"url_cover":"C"}]}"#);
    t.switch_view_mode();
    t.table_selected = 9;
    assert_eq!(t.open_selected_target().as_deref(), Some("C"));
    t.open_finished(Err("denied".to_string()));
    assert_eq!(t.message.as_deref(), Some("Failed to open: denied"));
}

#[test]
fn result_table_window_keeps_selection_visible() {
    assert_eq!(table_window(0, 50, 13), (0, 10));
    assert_eq!(table_window(15, 50, 13), (6, 16));
    assert_eq!(table_window(49, 50, 13), (40, 50));
    assert_eq!(table_window(0, 3, 2), (0, 1));
}

#[test]
fn result_keys_scroll_switch_and_open_row() {
    let mut s = screen(r#"{"items":[{"id":1},{"id":2}]}"#);
    assert_eq!(s.handle_key(KeyCode::Char('j')), ResultAction::Nothing);
    assert_eq!(s.scroll, 1);
    s.handle_key(KeyCode::Char('k'));
    assert_eq!(s.scroll, 0);
    s.handle_key(KeyCode::Char('t'));
    assert_eq!(s.view_mode, ResultViewMode::Table);
    s.handle_key(KeyCode::Down);
    assert_eq!(s.table_selected, 1);
    s.handle_key(KeyCode::Char('j'));
    assert_eq!(s.table_selected, 1);
    assert_eq!(s.handle_key(KeyCode::Enter), ResultAction::OpenItem(1));
    assert_eq!(s.handle_key(KeyCode::Esc), ResultAction::Back);
    assert_eq!(s.handle_key(KeyCode::Char('q')), ResultAction::Quit);
}

#[test]
fn highlighted_pieces_tile_each_line() {
    for line in [
        "  \"name\": \"Zelda \\\"II\\\"\",",
        "  \"size\": -12.5e3, \"ok\": true, \"x\": null",
        "  \"open",
        "",
        "[false, 7]",
    ] {
        let toks: Vec<Token> = highlight_json_line(line.as_bytes());
        let mut at = 0usize;
        for t in &toks {
            assert_eq!(t.start, at);
            assert!(t.start < t.end);
            at = t.end;
        }
        assert_eq!(at, line.len());
    }
}

#[test]
fn compact_string_escapes_like_serde_json() {
    let s = "a\"b\\c\nd\u{1}\u{1f}\u{8}\u{c}\r\té\u{7f}/";
    let v = JsonValue::Str(s.to_string());
    assert_eq!(v.to_compact_string(), serde_json::to_string(s).unwrap());
    assert_eq!(
        v.to_compact_string(),
        "\"a\\\"b\\\\c\\nd\\u0001\\u001f\\b\\f\\r\\té\u{7f}/\""
    );
}

#[test]
fn result_screen_prints_the_response_pretty() {
    let text = r#"{"items":[{"id":1,"name":"Mario"}],"total":1}"#;
    let value: serde_json::Value = serde_json::from_str(text).expect("json");
    let expected = serde_json::to_string_pretty(&value).expect("pretty");
    let s = ResultScreen::new(conv(&value));
    assert_eq!(s.result_text, expected);
    assert!(s.result_text.contains("\n  \"items\": ["));
    assert_eq!(s.highlighted_lines.len(), expected.lines().count());
    assert_eq!(s.table_row_count, 1);

    let given = ResultScreen::with_text(conv(&value), "x".to_string());
    assert_eq!(given.result_text, "x");
    assert_eq!(given.table_row_count, 1);
}
