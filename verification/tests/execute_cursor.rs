use romm_tui::execute::{ExecuteScreen, FocusedField, MiddleAreas};
use romm_tui::types::Area;
use romm_tui::openapi::{ApiEndpoint, ApiParameter};
use romm_tui::search::SearchScreen;

fn param(name: &str, param_type: &str) -> ApiParameter {
    ApiParameter {
        name: name.to_string(),
        param_type: param_type.to_string(),
        required: false,
        default: None,
        description: None,
    }
}

fn screen() -> ExecuteScreen {
    let ep = ApiEndpoint {
        method: "GET".to_string(),
        path: "/api/roms/{id}".to_string(),
        summary: None,
        description: None,
        query_params: vec![param("limit", "integer"), param("q", "string")],
        path_params: vec![param("id", "string")],
        has_body: true,
        tags: vec![],
    };
    ExecuteScreen::new(ep)
}

fn area(x: u16, y: u16, width: u16, height: u16) -> Area {
    Area { x, y, width, height }
}

#[test]
fn path_param_cursor_follows_line_and_border() {
    let mut e = screen();
    e.path_params[0].1 = "4".to_string();
    // "  id (string) = 4" is 17 characters.
    assert_eq!(e.cursor_in_path_params(area(0, 5, 40, 5)), Some((18, 6)));
    assert_eq!(e.cursor_in_path_params(area(0, 5, 10, 5)), Some((8, 6)));
    assert_eq!(e.cursor_in_path_params(area(0, 5, 40, 2)), None);
    assert_eq!(e.cursor_in_path_params(area(0, 5, 2, 9)), None);
}

#[test]
fn query_param_cursor_clamps_row_and_uses_parameter_type() {
    let mut e = screen();
    e.query_params[0].1 = "50".to_string();
    // "  limit (integer) = 50": 5 + 2 + 7 + 8 characters.
    assert_eq!(e.cursor_in_query_params(area(2, 0, 80, 10)), Some((25, 1)));
    e.param_input_idx = 5;
    // Clamped to the last row: "  q (string) = ".
    assert_eq!(e.cursor_in_query_params(area(2, 0, 80, 10)), Some((18, 2)));
    // The row falls on the bottom border.
    assert_eq!(e.cursor_in_query_params(area(2, 0, 80, 3)), None);
}

#[test]
fn row_without_description_shows_string_type() {
    let mut e = screen();
    e.path_params.push(("extra".to_string(), "v".to_string()));
    e.path_param_input_idx = 1;
    // "  extra (string) = v": 5 + 1 + 6 + 8 characters.
    assert_eq!(e.cursor_in_path_params(area(0, 0, 80, 10)), Some((21, 2)));
}

#[test]
fn body_cursor_sits_after_last_line() {
    let mut e = screen();
    e.body_text = "ab\ncdef".to_string();
    assert_eq!(e.cursor_in_body(area(10, 10, 20, 10)), Some((15, 12)));
    assert_eq!(e.cursor_in_body(area(10, 10, 20, 3)), Some((15, 11)));
    assert_eq!(e.cursor_in_body(area(10, 10, 5, 10)), Some((13, 12)));
    e.body_text.clear();
    assert_eq!(e.cursor_in_body(area(0, 0, 20, 10)), Some((1, 1)));
}

#[test]
fn cursor_position_uses_focused_panel() {
    let mut e = screen();
    let mid = MiddleAreas { path: None, query: area(0, 0, 40, 10), body: Some(area(40, 0, 40, 10)) };
    assert_eq!(e.focused_field, FocusedField::PathParams);
    assert_eq!(e.cursor_position(mid), None);
    e.focused_field = FocusedField::QueryParams;
    // "  limit (integer) = ": 5 + 0 + 7 + 8 characters.
    assert_eq!(e.cursor_position(mid), Some((21, 1)));
    e.focused_field = FocusedField::Body;
    e.body_text = "xy".to_string();
    assert_eq!(e.cursor_position(mid), Some((43, 1)));
}

#[test]
fn search_cursor_follows_query_and_box() {
    let mut s = SearchScreen::new();
    s.query = "mario".to_string();
    s.cursor_pos = 3;
    assert_eq!(s.cursor_position(area(4, 2, 80, 3)), Some((16, 3)));
    s.cursor_pos = 99;
    assert_eq!(s.cursor_position(area(4, 2, 80, 3)), Some((18, 3)));
    assert_eq!(s.cursor_position(area(4, 2, 10, 3)), Some((13, 3)));
    assert_eq!(s.cursor_position(area(4, 2, 0, 3)), Some((4, 3)));
}
