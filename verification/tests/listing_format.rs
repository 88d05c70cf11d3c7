use capmind::format::{
    collapse_marked, cut_with_ellipsis, format_memo_line, kept_within, mark_white_space,
    measure_for_cut, sanitize_content, truncate_with_ellipsis,
};
use capmind::time::{display_time_or_raw, format_display_time};

#[test]
fn sanitize_collapses_runs_of_white_space() {
    assert_eq!(sanitize_content("a  b\t\tc"), "a b c");
    assert_eq!(sanitize_content("line one\nline two\r\nthree"), "line one line two three");
}

#[test]
fn sanitize_trims_both_ends() {
    assert_eq!(sanitize_content("  hello world \n"), "hello world");
    assert_eq!(sanitize_content("\t\n "), "");
    assert_eq!(sanitize_content(""), "");
}

#[test]
fn sanitize_knows_unicode_white_space() {
    assert_eq!(sanitize_content("a\u{3000}b\u{a0}c"), "a b c");
    assert_eq!(sanitize_content("日本\u{2003}語"), "日本 語");
}

#[test]
fn sanitize_leaves_clean_text_alone() {
    assert_eq!(sanitize_content("already clean"), "already clean");
}

#[test]
fn truncate_keeps_text_that_fits() {
    assert_eq!(truncate_with_ellipsis("hello", 5), "hello");
    assert_eq!(truncate_with_ellipsis("hello", 50), "hello");
    assert_eq!(truncate_with_ellipsis("", 0), "");
}

#[test]
fn truncate_cuts_and_adds_three_stops() {
    assert_eq!(truncate_with_ellipsis("hello world", 8), "hello...");
    assert_eq!(truncate_with_ellipsis("hello world", 10), "hello w...");
    assert_eq!(truncate_with_ellipsis("hello", 4), "h...");
}

#[test]
fn truncate_to_three_cells_or_less_gives_only_stops() {
    assert_eq!(truncate_with_ellipsis("hello", 3), "...");
    assert_eq!(truncate_with_ellipsis("hello", 2), "..");
    assert_eq!(truncate_with_ellipsis("hello", 1), ".");
    assert_eq!(truncate_with_ellipsis("hello", 0), "");
}

#[test]
fn truncate_does_not_split_wide_characters() {
    // Each character takes two cells: five cells in front of the stops hold two of them.
    assert_eq!(truncate_with_ellipsis("日本語日本語", 8), "日本...");
    assert_eq!(truncate_with_ellipsis("日本語日本語", 9), "日本語...");
    assert_eq!(truncate_with_ellipsis("日本語日本語", 12), "日本語日本語");
}

#[test]
fn memo_line_at_width_zero_is_empty() {
    assert_eq!(format_memo_line("2024-01-01 10:00:00", "text", 0), "");
}

#[test]
fn memo_line_puts_two_spaces_after_the_time() {
    assert_eq!(
        format_memo_line("2024-01-01 10:00:00", "buy  milk\nnow", 80),
        "2024-01-01 10:00:00  buy milk now"
    );
}

#[test]
fn memo_line_cuts_the_content_to_what_is_left() {
    // 21 cells of prefix leave 9 of 30 for the content.
    assert_eq!(
        format_memo_line("2024-01-01 10:00:00", "a long note text", 30),
        "2024-01-01 10:00:00  a long..."
    );
}

#[test]
fn memo_line_too_narrow_for_content_shows_the_cut_time() {
    assert_eq!(format_memo_line("2024-01-01 10:00:00", "note", 21), "2024-01-01 10:00:00");
    assert_eq!(format_memo_line("2024-01-01 10:00:00", "note", 10), "2024-01...");
    assert_eq!(format_memo_line("2024-01-01 10:00:00", "note", 2), "..");
}

#[test]
fn memo_line_with_one_cell_for_content() {
    assert_eq!(format_memo_line("12:00", "note", 8), "12:00  .");
    assert_eq!(format_memo_line("12:00", "n", 8), "12:00  n");
}

#[test]
fn display_time_leaves_other_text_unchanged() {
    assert_eq!(format_display_time("not a time"), "not a time");
    assert_eq!(format_display_time(""), "");
    assert_eq!(format_display_time("2024-13-45T99:00:00Z"), "2024-13-45T99:00:00Z");
}

#[test]
fn display_time_renders_date_and_time_of_day() {
    let shown = format_display_time("2024-05-06T07:08:09+00:00");
    assert_ne!(shown, "2024-05-06T07:08:09+00:00");
    let chars: Vec<char> = shown.chars().collect();
    assert_eq!(chars.len(), 19);
    for (i, ch) in chars.iter().enumerate() {
        match i {
            4 | 7 => assert_eq!(*ch, '-'),
            10 => assert_eq!(*ch, ' '),
            13 | 16 => assert_eq!(*ch, ':'),
            _ => assert!(ch.is_ascii_digit()),
        }
    }
    assert!(shown.starts_with("2024-05-0"));
    assert!(shown.ends_with(":09"));
}

#[test]
fn display_time_falls_back_to_the_stored_text() {
    assert_eq!(display_time_or_raw("raw", None), "raw");
    assert_eq!(display_time_or_raw("raw", Some("local".to_string())), "local");
}

#[test]
fn kept_within_takes_widths_until_one_does_not_fit() {
    assert_eq!(kept_within(&vec![2, 2, 2], 5), 2);
    assert_eq!(kept_within(&vec![2, 2, 2], 6), 3);
    assert_eq!(kept_within(&vec![2, 2, 2], 1), 0);
    assert_eq!(kept_within(&vec![1, 5, 1], 3), 1);
    assert_eq!(kept_within(&vec![0, 0, 4], 3), 2);
    assert_eq!(kept_within(&vec![], 3), 0);
    assert_eq!(kept_within(&vec![usize::MAX, usize::MAX], usize::MAX), 1);
}

#[test]
fn measure_for_cut_counts_controls_as_one_cell() {
    assert_eq!(measure_for_cut("a日\te\u{301}"), vec![1, 2, 1, 1, 0]);
    assert_eq!(measure_for_cut(""), Vec::<usize>::new());
}

#[test]
fn truncate_counts_a_control_character_as_one_cell() {
    // The tab is one cell when cutting: "a", tab and "b" fill the three cells in front of the stops.
    assert_eq!(truncate_with_ellipsis("a\tbcdefgh", 6), "a\tb...");
}

#[test]
fn mark_white_space_flags_each_character() {
    assert_eq!(mark_white_space(" a\tb\u{3000}"), vec![true, false, true, false, true]);
    assert_eq!(mark_white_space(""), Vec::<bool>::new());
}

#[test]
fn collapse_marked_goes_by_the_marks_alone() {
    assert_eq!(collapse_marked("a--b-", &vec![false, true, true, false, true]), "a b");
    assert_eq!(collapse_marked("a b", &vec![false, false, false]), "a b");
    assert_eq!(collapse_marked("xyz", &vec![true, true, true]), "");
    assert_eq!(collapse_marked("xyz", &vec![true, false, true]), "y");
    assert_eq!(collapse_marked("", &vec![]), "");
}

#[test]
fn cut_with_ellipsis_goes_by_the_given_widths() {
    assert_eq!(cut_with_ellipsis("abcdef", &vec![1, 1, 1, 1, 1, 1], 5), "ab...");
    assert_eq!(cut_with_ellipsis("abcdef", &vec![2, 2, 2, 2, 2, 2], 8), "ab...");
    assert_eq!(cut_with_ellipsis("abcdef", &vec![0, 0, 9, 0, 0, 0], 4), "ab...");
    assert_eq!(cut_with_ellipsis("abcdef", &vec![1, 1, 1, 1, 1, 1], 3), "...");
    assert_eq!(cut_with_ellipsis("abcdef", &vec![1, 1, 1, 1, 1, 1], 0), "");
    assert_eq!(cut_with_ellipsis("ab", &vec![1, 1], 9), "ab...");
}
