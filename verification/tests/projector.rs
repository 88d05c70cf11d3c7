use capmind::input::{InputCursor, InputState};
use capmind::layout::{content_width, Rect};
use capmind::projector::{
    cell_inside_border, line_rows, position_from_widths, width_up_to_char, wrapped_cursor_position,
};
use capmind::width::checked_text_width;

fn lines(texts: &[&str]) -> Vec<String> {
    texts.iter().map(|t| t.to_string()).collect()
}

fn cursor(line: usize, col: usize) -> InputCursor {
    InputCursor { line, col, preferred_col: None }
}

#[test]
fn cursor_in_third_row_of_a_wrapped_line() {
    let text = "abcdefghijklmnopqrstuvwxy";
    assert_eq!(checked_text_width(text), Some(25));
    let pos = wrapped_cursor_position(&lines(&[text]), &cursor(0, 22), 10);
    assert_eq!(pos, Some((2, 2)));
}

#[test]
fn lines_above_count_their_wrapped_rows() {
    let all = lines(&["abcdefghijklmnopqrstuvwxy", "", "0123456789", "xyz"]);
    // 25 cells take 3 rows, the empty line 1, exactly 10 cells 1.
    assert_eq!(wrapped_cursor_position(&all, &cursor(3, 1), 10), Some((5, 1)));
    assert_eq!(wrapped_cursor_position(&all, &cursor(1, 0), 10), Some((3, 0)));
    assert_eq!(wrapped_cursor_position(&all, &cursor(2, 10), 10), Some((5, 0)));
}

#[test]
fn wide_characters_take_two_cells() {
    let all = lines(&["日本語日本語", "ab"]);
    assert_eq!(checked_text_width("日本語日本語"), Some(12));
    assert_eq!(wrapped_cursor_position(&all, &cursor(0, 3), 4), Some((1, 2)));
    assert_eq!(wrapped_cursor_position(&all, &cursor(1, 1), 4), Some((3, 1)));
}

#[test]
fn combining_marks_and_controls_take_no_cell() {
    assert_eq!(checked_text_width("e\u{301}"), Some(1));
    assert_eq!(checked_text_width("a\tb"), Some(2));
    assert_eq!(width_up_to_char("e\u{301}x", 2), Some(1));
}

#[test]
fn empty_text_has_no_width() {
    assert_eq!(checked_text_width(""), Some(0));
    assert_eq!(width_up_to_char("", 4), Some(0));
}

#[test]
fn width_up_to_char_stops_at_the_index() {
    assert_eq!(width_up_to_char("a日b", 0), Some(0));
    assert_eq!(width_up_to_char("a日b", 1), Some(1));
    assert_eq!(width_up_to_char("a日b", 2), Some(3));
    assert_eq!(width_up_to_char("a日b", 3), Some(4));
    assert_eq!(width_up_to_char("a日b", 99), Some(4));
}

#[test]
fn line_rows_rounds_up_and_never_gives_zero() {
    assert_eq!(line_rows(0, 10), 1);
    assert_eq!(line_rows(1, 10), 1);
    assert_eq!(line_rows(10, 10), 1);
    assert_eq!(line_rows(11, 10), 2);
    assert_eq!(line_rows(20, 10), 2);
    assert_eq!(line_rows(25, 10), 3);
    assert_eq!(line_rows(7, 1), 7);
}

#[test]
fn cursor_beyond_the_text_is_pulled_back() {
    let all = lines(&["abc", "de"]);
    assert_eq!(wrapped_cursor_position(&all, &cursor(9, 9), 10), Some((1, 2)));
    assert_eq!(wrapped_cursor_position(&all, &cursor(0, 9), 2), Some((1, 1)));
    assert_eq!(wrapped_cursor_position(&lines(&[]), &cursor(2, 2), 10), Some((0, 0)));
}

#[test]
fn cursor_at_origin_of_empty_buffer() {
    assert_eq!(wrapped_cursor_position(&lines(&[""]), &cursor(0, 0), 10), Some((0, 0)));
}

#[test]
fn cursor_at_exact_wrap_boundary_starts_the_next_row() {
    let all = lines(&["0123456789"]);
    assert_eq!(wrapped_cursor_position(&all, &cursor(0, 10), 10), Some((1, 0)));
    assert_eq!(wrapped_cursor_position(&all, &cursor(0, 9), 10), Some((0, 9)));
}

#[test]
fn content_width_leaves_out_the_border() {
    assert_eq!(content_width(Rect { x: 0, y: 0, width: 12, height: 5 }), 10);
    assert_eq!(content_width(Rect { x: 0, y: 0, width: 3, height: 5 }), 1);
    assert_eq!(content_width(Rect { x: 0, y: 0, width: 2, height: 5 }), 1);
    assert_eq!(content_width(Rect { x: 0, y: 0, width: 0, height: 5 }), 1);
}

#[test]
fn cursor_position_adds_the_pane_origin_and_border() {
    let input = InputState {
        lines: lines(&["abcdefghijklmnopqrstuvwxy"]),
        status: None,
        cursor: cursor(0, 22),
    };
    let area = Rect { x: 3, y: 7, width: 12, height: 6 };
    assert_eq!(input.cursor_position(area), Some((3 + 2 + 1, 7 + 2 + 1)));
}

#[test]
fn cursor_position_of_a_fresh_buffer_is_inside_the_border() {
    let input = InputState::new();
    let area = Rect { x: 0, y: 0, width: 80, height: 12 };
    assert_eq!(input.cursor_position(area), Some((1, 1)));
}

#[test]
fn cursor_position_beyond_the_last_cell_is_refused() {
    let input = InputState {
        lines: lines(&["abc"]),
        status: None,
        cursor: cursor(0, 3),
    };
    let far = Rect { x: u16::MAX - 3, y: 0, width: 20, height: 4 };
    assert_eq!(input.cursor_position(far), None);
    let near = Rect { x: u16::MAX - 4, y: 0, width: 20, height: 4 };
    assert_eq!(input.cursor_position(near), Some((u16::MAX, 1)));
    let low = Rect { x: 0, y: u16::MAX, width: 20, height: 4 };
    assert_eq!(input.cursor_position(low), None);
}

#[test]
fn position_from_widths_sums_rows_and_splits_the_prefix() {
    assert_eq!(position_from_widths(&vec![], 22, 10), Some((2, 2)));
    assert_eq!(position_from_widths(&vec![25, 0, 10], 1, 10), Some((5, 1)));
    assert_eq!(position_from_widths(&vec![0, 0, 0], 0, 7), Some((3, 0)));
    assert_eq!(position_from_widths(&vec![3], 9, 1), Some((12, 0)));
}

#[test]
fn position_from_widths_refuses_a_row_beyond_the_machine_word() {
    assert_eq!(position_from_widths(&vec![usize::MAX, 1], 0, 1), None);
    assert_eq!(position_from_widths(&vec![usize::MAX], 0, 1), Some((usize::MAX, 0)));
    assert_eq!(position_from_widths(&vec![usize::MAX], 1, 1), None);
}

#[test]
fn cell_inside_border_moves_past_the_corner() {
    let area = Rect { x: 10, y: 20, width: 30, height: 5 };
    assert_eq!(cell_inside_border(area, 0, 0), Some((11, 21)));
    assert_eq!(cell_inside_border(area, 3, 7), Some((18, 24)));
    assert_eq!(cell_inside_border(area, usize::MAX, 0), None);
    assert_eq!(cell_inside_border(area, 0, usize::MAX), None);
    assert_eq!(cell_inside_border(area, 65514, 65524), Some((65535, 65535)));
    assert_eq!(cell_inside_border(area, 65515, 0), None);
}
