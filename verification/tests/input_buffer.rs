use capmind::input::{InputCursor, InputState};

fn typed(text: &str) -> InputState {
    let mut input = InputState::new();
    for ch in text.chars() {
        if ch == '\n' {
            input.newline();
        } else {
            input.insert_char(ch);
        }
    }
    input
}

fn at(lines: &[&str], line: usize, col: usize) -> InputState {
    InputState {
        lines: lines.iter().map(|l| l.to_string()).collect(),
        status: None,
        cursor: InputCursor { line, col, preferred_col: None },
    }
}

fn place(input: &InputState) -> (usize, usize) {
    (input.cursor.line, input.cursor.col)
}

fn in_bounds(input: &InputState) -> bool {
    !input.lines.is_empty()
        && input.cursor.line < input.lines.len()
        && input.cursor.col <= input.lines[input.cursor.line].chars().count()
}

#[test]
fn new_buffer_is_one_empty_line() {
    let input = InputState::new();
    assert_eq!(input.lines, vec![String::new()]);
    assert_eq!(place(&input), (0, 0));
    assert!(input.cursor.preferred_col.is_none());
    assert!(input.status.is_none());
    assert!(input.is_empty());
    assert_eq!(input.text(), "");
}

#[test]
fn new_cursor_is_at_origin() {
    let cursor = InputCursor::new();
    assert_eq!((cursor.line, cursor.col, cursor.preferred_col), (0, 0, None));
}

#[test]
fn typing_builds_lines() {
    let input = typed("hello\nhi");
    assert_eq!(input.lines, vec!["hello".to_string(), "hi".to_string()]);
    assert_eq!(input.text(), "hello\nhi");
    assert_eq!(place(&input), (1, 2));
    assert!(!input.is_empty());
}

#[test]
fn insert_goes_in_at_the_cursor() {
    let mut input = at(&["held"], 0, 3);
    input.insert_char('l');
    assert_eq!(input.lines, vec!["helld".to_string()]);
    assert_eq!(place(&input), (0, 4));
    let mut front = at(&["bc"], 0, 0);
    front.insert_char('a');
    assert_eq!(front.lines, vec!["abc".to_string()]);
    assert_eq!(place(&front), (0, 1));
}

#[test]
fn insert_counts_characters_not_bytes() {
    let mut input = at(&["日本"], 0, 1);
    input.insert_char('é');
    assert_eq!(input.lines, vec!["日é本".to_string()]);
    assert_eq!(place(&input), (0, 2));
    input.insert_char('😀');
    assert_eq!(input.lines, vec!["日é😀本".to_string()]);
    assert_eq!(place(&input), (0, 3));
}

#[test]
fn insert_clears_preferred_column_and_status() {
    let mut input = at(&["ab"], 0, 1);
    input.cursor.preferred_col = Some(7);
    input.status = Some("saved".to_string());
    input.insert_char('x');
    assert_eq!(input.cursor.preferred_col, None);
    assert_eq!(input.status, None);
}

#[test]
fn backspace_removes_whole_code_points() {
    let mut input = at(&["a日é"], 0, 3);
    input.backspace();
    assert_eq!(input.lines, vec!["a日".to_string()]);
    assert_eq!(place(&input), (0, 2));
    input.backspace();
    assert_eq!(input.lines, vec!["a".to_string()]);
    assert_eq!(place(&input), (0, 1));
}

#[test]
fn backspace_in_the_middle_removes_the_character_before() {
    let mut input = at(&["abcd"], 0, 2);
    input.backspace();
    assert_eq!(input.lines, vec!["acd".to_string()]);
    assert_eq!(place(&input), (0, 1));
}

#[test]
fn backspace_at_line_start_merges_into_previous_line() {
    let mut input = at(&["hello", "world", "!"], 1, 0);
    input.backspace();
    assert_eq!(input.lines, vec!["helloworld".to_string(), "!".to_string()]);
    assert_eq!(place(&input), (0, 5));
}

#[test]
fn backspace_at_buffer_start_changes_nothing() {
    let mut input = at(&["abc", "d"], 0, 0);
    input.cursor.preferred_col = Some(2);
    input.status = Some("kept".to_string());
    input.backspace();
    assert_eq!(input.lines, vec!["abc".to_string(), "d".to_string()]);
    assert_eq!(place(&input), (0, 0));
    assert_eq!(input.cursor.preferred_col, Some(2));
    assert_eq!(input.status, Some("kept".to_string()));
}

#[test]
fn backspace_on_empty_buffer_keeps_one_line() {
    let mut input = InputState::new();
    input.backspace();
    assert_eq!(input.lines, vec![String::new()]);
    assert_eq!(place(&input), (0, 0));
}

#[test]
fn delete_removes_the_character_under_the_cursor() {
    let mut input = at(&["a日c"], 0, 1);
    input.delete_char();
    assert_eq!(input.lines, vec!["ac".to_string()]);
    assert_eq!(place(&input), (0, 1));
}

#[test]
fn delete_at_line_end_merges_next_line() {
    let mut input = at(&["ab", "cd", "ef"], 0, 2);
    input.delete_char();
    assert_eq!(input.lines, vec!["abcd".to_string(), "ef".to_string()]);
    assert_eq!(place(&input), (0, 2));
}

#[test]
fn delete_at_buffer_end_changes_nothing() {
    let mut input = at(&["ab", "cd"], 1, 2);
    input.delete_char();
    assert_eq!(input.lines, vec!["ab".to_string(), "cd".to_string()]);
    assert_eq!(place(&input), (1, 2));
}

#[test]
fn newline_splits_at_the_cursor() {
    let mut input = at(&["hello world", "x"], 0, 5);
    input.newline();
    assert_eq!(
        input.lines,
        vec!["hello".to_string(), " world".to_string(), "x".to_string()]
    );
    assert_eq!(place(&input), (1, 0));
}

#[test]
fn newline_at_line_end_opens_an_empty_line() {
    let mut input = at(&["ab"], 0, 2);
    input.newline();
    assert_eq!(input.lines, vec!["ab".to_string(), String::new()]);
    assert_eq!(place(&input), (1, 0));
}

#[test]
fn newline_splits_between_multibyte_characters() {
    let mut input = at(&["日本語"], 0, 2);
    input.newline();
    assert_eq!(input.lines, vec!["日本".to_string(), "語".to_string()]);
}

#[test]
fn clear_leaves_the_empty_buffer() {
    let mut input = typed("one\ntwo");
    input.status = Some("x".to_string());
    input.clear();
    assert_eq!(input.lines, vec![String::new()]);
    assert_eq!(place(&input), (0, 0));
    assert_eq!(input.status, None);
    assert!(input.is_empty());
}

#[test]
fn text_joins_lines_with_line_feeds() {
    assert_eq!(at(&["a", "", "b"], 0, 0).text(), "a\n\nb");
    assert_eq!(at(&["only"], 0, 0).text(), "only");
    assert_eq!(at(&[], 0, 0).text(), "");
}

#[test]
fn is_empty_means_one_empty_line() {
    assert!(at(&[""], 0, 0).is_empty());
    assert!(!at(&["", ""], 0, 0).is_empty());
    assert!(!at(&[" "], 0, 0).is_empty());
    assert!(!at(&[], 0, 0).is_empty());
}

#[test]
fn move_left_wraps_to_end_of_previous_line() {
    let mut input = at(&["abc", "de"], 1, 0);
    input.move_left();
    assert_eq!(place(&input), (0, 3));
    input.move_left();
    assert_eq!(place(&input), (0, 2));
}

#[test]
fn move_left_stops_at_buffer_start() {
    let mut input = at(&["abc"], 0, 0);
    input.cursor.preferred_col = Some(3);
    input.move_left();
    assert_eq!(place(&input), (0, 0));
    assert_eq!(input.cursor.preferred_col, None);
}

#[test]
fn move_right_wraps_to_start_of_next_line() {
    let mut input = at(&["ab", "cd"], 0, 1);
    input.move_right();
    assert_eq!(place(&input), (0, 2));
    input.move_right();
    assert_eq!(place(&input), (1, 0));
}

#[test]
fn move_right_stops_at_buffer_end() {
    let mut input = at(&["ab", "cd"], 1, 2);
    input.cursor.preferred_col = Some(9);
    input.move_right();
    assert_eq!(place(&input), (1, 2));
    assert_eq!(input.cursor.preferred_col, None);
}

#[test]
fn horizontal_moves_keep_the_status() {
    let mut input = at(&["ab"], 0, 1);
    input.status = Some("note".to_string());
    input.move_left();
    input.move_right();
    assert_eq!(input.status, Some("note".to_string()));
}

#[test]
fn sticky_column_survives_a_short_line() {
    let mut input = at(&["hello", "hi", "hello"], 0, 5);
    input.move_down();
    assert_eq!(place(&input), (1, 2));
    assert_eq!(input.cursor.preferred_col, Some(5));
    input.move_down();
    assert_eq!(place(&input), (2, 5));
    input.move_up();
    assert_eq!(place(&input), (1, 2));
    input.move_up();
    assert_eq!(place(&input), (0, 5));
}

#[test]
fn move_up_on_first_line_changes_nothing() {
    let mut input = at(&["abc", "d"], 0, 2);
    input.move_up();
    assert_eq!(place(&input), (0, 2));
    assert_eq!(input.cursor.preferred_col, None);
}

#[test]
fn move_down_on_last_line_changes_nothing() {
    let mut input = at(&["abc", "d"], 1, 1);
    input.move_down();
    assert_eq!(place(&input), (1, 1));
    assert_eq!(input.cursor.preferred_col, None);
}

#[test]
fn horizontal_move_forgets_the_sticky_column() {
    let mut input = at(&["hello", "hi", "hello"], 0, 5);
    input.move_down();
    input.move_left();
    assert_eq!(place(&input), (1, 1));
    input.move_down();
    assert_eq!(place(&input), (2, 1));
}

#[test]
fn out_of_range_state_is_repaired_before_an_edit() {
    let mut input = at(&["ab", "c"], 7, 9);
    input.insert_char('x');
    assert_eq!(input.lines, vec!["ab".to_string(), "cx".to_string()]);
    assert_eq!(place(&input), (1, 2));
    let mut no_lines = at(&[], 3, 3);
    no_lines.insert_char('y');
    assert_eq!(no_lines.lines, vec!["y".to_string()]);
    assert_eq!(place(&no_lines), (0, 1));
}

#[test]
fn ensure_invariants_clamps_line_then_column() {
    let mut input = at(&["abcd", "xy"], 5, 3);
    input.ensure_invariants();
    assert_eq!(place(&input), (1, 2));
    let mut column = at(&["abcd", "xy"], 0, 10);
    column.ensure_invariants();
    assert_eq!(place(&column), (0, 4));
    let mut empty = at(&[], 0, 0);
    empty.ensure_invariants();
    assert_eq!(empty.lines, vec![String::new()]);
}

#[test]
fn current_line_len_counts_characters() {
    assert_eq!(at(&["日本語", "ab"], 0, 0).current_line_len(), 3);
    assert_eq!(at(&["日本語", "ab"], 1, 0).current_line_len(), 2);
    assert_eq!(at(&["日本語", "ab"], 2, 0).current_line_len(), 0);
}

#[test]
fn reset_edit_state_forgets_column_and_status() {
    let mut input = at(&["ab"], 0, 1);
    input.cursor.preferred_col = Some(4);
    input.status = Some("s".to_string());
    input.reset_edit_state();
    assert_eq!(input.cursor.preferred_col, None);
    assert_eq!(input.status, None);
    assert_eq!(place(&input), (0, 1));
}

#[test]
fn bounds_hold_after_every_edit_of_a_long_run() {
    let mut input = InputState::new();
    let script = "ab\n\u{8}\u{8}\u{8}\u{8}c日\n\n\u{8}x\u{8}\u{8}\u{8}\u{8}\u{8}\u{8}q\n";
    for ch in script.chars() {
        match ch {
            '\n' => input.newline(),
            '\u{8}' => input.backspace(),
            other => input.insert_char(other),
        }
        assert!(in_bounds(&input));
    }
    assert_eq!(input.lines, vec!["q".to_string(), String::new()]);
}

#[test]
fn typing_then_backspacing_restores_text_and_cursor() {
    let mut input = at(&["héllo", "wörld"], 1, 2);
    let typed_chars = ['a', '日', '\t', 'é', '😀'];
    for ch in typed_chars {
        input.insert_char(ch);
    }
    assert_eq!(input.lines[1], "wöa日\té😀rld");
    for _ in typed_chars {
        input.backspace();
    }
    assert_eq!(input.lines, vec!["héllo".to_string(), "wörld".to_string()]);
    assert_eq!(place(&input), (1, 2));
    assert_eq!(input.text(), "héllo\nwörld");
}
