use text_editor::cursor::{CursorController, Direction};
use text_editor::rows::{EditorRows, Source};

fn document(lines: &[&str]) -> EditorRows {
    let mut rows = EditorRows::new(Source::Untitled);
    for (i, line) in lines.iter().enumerate() {
        rows.insert_row(i, String::from(*line));
    }
    rows
}

fn cursor_at(x: usize, y: usize) -> CursorController {
    let mut cursor = CursorController::new((80, 24));
    cursor.cursor_x = x;
    cursor.cursor_y = y;
    cursor
}

fn place(cursor: &CursorController) -> (usize, usize) {
    (cursor.cursor_y, cursor.cursor_x)
}

#[test]
fn new_cursor_is_at_the_start() {
    let cursor = CursorController::new((80, 24));
    assert_eq!(place(&cursor), (0, 0));
    assert_eq!(cursor.screen_columns, 80);
    assert_eq!(cursor.screen_rows, 24);
    assert_eq!(cursor.row_offset, 0);
    assert_eq!(cursor.col_offset, 0);
    assert_eq!(cursor.render_x, 0);
}

#[test]
fn up_stops_at_the_first_line() {
    let rows = document(&["ab", "cd"]);
    let mut cursor = cursor_at(1, 1);
    cursor.move_cursor(Direction::Up, &rows);
    assert_eq!(place(&cursor), (0, 1));
    cursor.move_cursor(Direction::Up, &rows);
    assert_eq!(place(&cursor), (0, 1));
}

#[test]
fn down_stops_after_the_last_line() {
    let rows = document(&["ab", "cd"]);
    let mut cursor = cursor_at(1, 0);
    cursor.move_cursor(Direction::Down, &rows);
    assert_eq!(place(&cursor), (1, 1));
    cursor.move_cursor(Direction::Down, &rows);
    assert_eq!(place(&cursor), (2, 0));
    cursor.move_cursor(Direction::Down, &rows);
    assert_eq!(place(&cursor), (2, 0));
}

#[test]
fn left_stops_at_the_start_of_the_line() {
    let rows = document(&["ab", "cd"]);
    let mut cursor = cursor_at(1, 1);
    cursor.move_cursor(Direction::Left, &rows);
    assert_eq!(place(&cursor), (1, 0));
    cursor.move_cursor(Direction::Left, &rows);
    assert_eq!(place(&cursor), (1, 0));
}

#[test]
fn right_goes_on_to_the_next_line() {
    let rows = document(&["ab", "cd"]);
    let mut cursor = cursor_at(1, 0);
    cursor.move_cursor(Direction::Right, &rows);
    assert_eq!(place(&cursor), (0, 2));
    cursor.move_cursor(Direction::Right, &rows);
    assert_eq!(place(&cursor), (1, 0));
    cursor.move_cursor(Direction::Right, &rows);
    cursor.move_cursor(Direction::Right, &rows);
    cursor.move_cursor(Direction::Right, &rows);
    assert_eq!(place(&cursor), (2, 0));
    cursor.move_cursor(Direction::Right, &rows);
    assert_eq!(place(&cursor), (2, 0));
}

#[test]
fn home_and_end() {
    let rows = document(&["hello", "x"]);
    let mut cursor = cursor_at(2, 0);
    cursor.move_cursor(Direction::End, &rows);
    assert_eq!(place(&cursor), (0, 5));
    cursor.move_cursor(Direction::Home, &rows);
    assert_eq!(place(&cursor), (0, 0));
    let mut cursor = cursor_at(0, 2);
    cursor.move_cursor(Direction::End, &rows);
    assert_eq!(place(&cursor), (2, 0));
}

#[test]
fn vertical_moves_hold_the_cursor_in_the_line() {
    let rows = document(&["a long line", "ab", "", "another long line"]);
    let mut cursor = cursor_at(11, 0);
    cursor.move_cursor(Direction::Down, &rows);
    assert_eq!(place(&cursor), (1, 2));
    cursor.move_cursor(Direction::Down, &rows);
    assert_eq!(place(&cursor), (2, 0));
    cursor.move_cursor(Direction::Down, &rows);
    cursor.move_cursor(Direction::End, &rows);
    assert_eq!(place(&cursor), (3, 17));
    cursor.move_cursor(Direction::Up, &rows);
    cursor.move_cursor(Direction::Up, &rows);
    cursor.move_cursor(Direction::Right, &rows);
    assert_eq!(place(&cursor), (1, 1));
}

#[test]
fn any_moves_leave_the_cursor_in_its_line() {
    let rows = document(&["a long line", "ab", "", "tab\tbed", "x"]);
    let moves = [
        Direction::Down,
        Direction::End,
        Direction::Down,
        Direction::Down,
        Direction::End,
        Direction::Up,
        Direction::Right,
        Direction::Up,
        Direction::Up,
        Direction::End,
        Direction::Down,
        Direction::Down,
        Direction::Down,
        Direction::Down,
        Direction::Left,
        Direction::Down,
        Direction::Right,
        Direction::Home,
        Direction::Up,
        Direction::End,
        Direction::Up,
    ];
    let mut cursor = cursor_at(0, 0);
    for direction in moves {
        cursor.move_cursor(direction, &rows);
        let len = if cursor.cursor_y < rows.num_rows() {
            rows.get_row(cursor.cursor_y).chars().count()
        } else {
            0
        };
        assert!(cursor.cursor_y <= rows.num_rows());
        assert!(cursor.cursor_x <= len);
    }
    assert_eq!(place(&cursor), (3, 1));
}

#[test]
fn a_move_mends_a_cursor_beyond_its_line() {
    let rows = document(&["ab"]);
    let mut cursor = cursor_at(7, 0);
    cursor.move_cursor(Direction::Right, &rows);
    assert_eq!(place(&cursor), (0, 2));
    let mut cursor = cursor_at(7, 0);
    cursor.move_cursor(Direction::Left, &rows);
    assert_eq!(place(&cursor), (0, 2));
}

#[test]
fn render_x_counts_one_column_for_each_character() {
    let rows = document(&["abcdefghijkl"]);
    for x in 0..=12 {
        let cursor = cursor_at(x, 0);
        assert_eq!(cursor.get_render_x(rows.get_editor_row(0)), x);
    }
}

#[test]
fn render_x_after_a_tab_is_the_next_stop() {
    let rows = document(&["ab\tcd\t\te", "\t", "1234567\t8"]);
    let expected = [0, 1, 2, 8, 9, 10, 16, 24, 25];
    for (x, column) in expected.iter().enumerate() {
        let cursor = cursor_at(x, 0);
        assert_eq!(cursor.get_render_x(rows.get_editor_row(0)), *column);
    }
    assert_eq!(cursor_at(1, 1).get_render_x(rows.get_editor_row(1)), 8);
    assert_eq!(cursor_at(7, 2).get_render_x(rows.get_editor_row(2)), 7);
    assert_eq!(cursor_at(8, 2).get_render_x(rows.get_editor_row(2)), 8);
    assert_eq!(cursor_at(9, 2).get_render_x(rows.get_editor_row(2)), 9);
}

#[test]
fn render_x_is_the_length_of_the_shown_prefix() {
    let rows = document(&["a\tb\tünï\tc"]);
    let row = rows.get_editor_row(0);
    let shown: Vec<char> = row.render.chars().collect();
    assert_eq!(cursor_at(row.len(), 0).get_render_x(row), shown.len());
}

#[test]
fn scroll_finds_the_column_of_the_cursor() {
    let rows = document(&["ab\tcd", "xyz"]);
    let mut cursor = cursor_at(3, 0);
    cursor.scroll(&rows);
    assert_eq!(cursor.render_x, 8);
    let mut cursor = cursor_at(0, 2);
    cursor.render_x = 5;
    cursor.scroll(&rows);
    assert_eq!(cursor.render_x, 0);
}

#[test]
fn scroll_moves_the_window_down_to_the_cursor() {
    let lines: Vec<String> = (0..100).map(|i| format!("line {}", i)).collect();
    let lines: Vec<&str> = lines.iter().map(|s| s.as_str()).collect();
    let rows = document(&lines);
    let mut cursor = CursorController::new((80, 10));
    cursor.cursor_y = 9;
    cursor.scroll(&rows);
    assert_eq!(cursor.row_offset, 0);
    cursor.cursor_y = 10;
    cursor.scroll(&rows);
    assert_eq!(cursor.row_offset, 1);
    cursor.cursor_y = 50;
    cursor.scroll(&rows);
    assert_eq!(cursor.row_offset, 41);
    cursor.cursor_y = 100;
    cursor.scroll(&rows);
    assert_eq!(cursor.row_offset, 91);
}

#[test]
fn scroll_moves_the_window_up_to_the_cursor() {
    let lines: Vec<String> = (0..100).map(|i| format!("line {}", i)).collect();
    let lines: Vec<&str> = lines.iter().map(|s| s.as_str()).collect();
    let rows = document(&lines);
    let mut cursor = CursorController::new((80, 10));
    cursor.row_offset = 41;
    cursor.cursor_y = 45;
    cursor.scroll(&rows);
    assert_eq!(cursor.row_offset, 41);
    cursor.cursor_y = 5;
    cursor.scroll(&rows);
    assert_eq!(cursor.row_offset, 5);
}

#[test]
fn scroll_moves_the_window_sideways() {
    let rows = document(&["\t\t\t0123456789", "short"]);
    let mut cursor = CursorController::new((20, 10));
    cursor.cursor_x = 2;
    cursor.scroll(&rows);
    assert_eq!((cursor.render_x, cursor.col_offset), (16, 0));
    cursor.cursor_x = 3;
    cursor.scroll(&rows);
    assert_eq!((cursor.render_x, cursor.col_offset), (24, 5));
    cursor.cursor_x = 13;
    cursor.scroll(&rows);
    assert_eq!((cursor.render_x, cursor.col_offset), (34, 15));
    cursor.cursor_x = 1;
    cursor.scroll(&rows);
    assert_eq!((cursor.render_x, cursor.col_offset), (8, 8));
    cursor.cursor_x = 0;
    cursor.cursor_y = 1;
    cursor.scroll(&rows);
    assert_eq!((cursor.render_x, cursor.col_offset), (0, 0));
}

#[test]
fn scroll_holds_the_cursor_in_the_window() {
    let lines: Vec<String> = (0..60).map(|i| format!("{}\tline", i)).collect();
    let lines: Vec<&str> = lines.iter().map(|s| s.as_str()).collect();
    let rows = document(&lines);
    let mut cursor = CursorController::new((7, 4));
    let stops = [(0, 0), (3, 59), (0, 60), (6, 17), (1, 16), (2, 30), (0, 29), (5, 2)];
    for (x, y) in stops {
        cursor.cursor_x = x;
        cursor.cursor_y = y;
        cursor.scroll(&rows);
        assert_eq!((cursor.cursor_x, cursor.cursor_y), (x, y));
        assert!(cursor.row_offset <= cursor.cursor_y);
        assert!(cursor.cursor_y < cursor.row_offset + cursor.screen_rows);
        assert!(cursor.col_offset <= cursor.render_x);
        assert!(cursor.render_x < cursor.col_offset + cursor.screen_columns);
    }
}
