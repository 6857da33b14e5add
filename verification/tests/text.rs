use mj_tui::text::{cut_to_width, first_line, is_blank, trim, truncate_text_to_width};
use unicode_width::UnicodeWidthStr;

#[test]
fn text_that_fits_is_preserved() {
    let line = "界abc".to_string();

    assert_eq!(truncate_text_to_width(line.clone(), 5), line);
}

#[test]
fn truncation_reserves_room_for_ellipsis() {
    assert_eq!(truncate_text_to_width("abcdef".to_string(), 5), "ab...");
    assert_eq!(truncate_text_to_width("界abcd".to_string(), 5), "界...");
}

#[test]
fn narrow_widths_truncate_without_ellipsis() {
    assert_eq!(truncate_text_to_width("abcdef".to_string(), 3), "abc");
    assert_eq!(truncate_text_to_width("界abc".to_string(), 1), "");
    assert_eq!(truncate_text_to_width("abcdef".to_string(), 0), "");
}

#[test]
fn truncation_preserves_zero_width_characters() {
    let truncated = truncate_text_to_width("e\u{301}xyzz".to_string(), 4);

    assert_eq!(truncated, "e\u{301}...");
    assert_eq!(truncated.width(), 4);
}

#[test]
fn first_line_truncates_at_character_boundaries() {
    assert_eq!(first_line("hello\nworld", 60), "hello");
    assert_eq!(first_line("", 60), "");
    assert_eq!(first_line("éééé", 3), "éé…");
}

#[test]
fn shortened_text_never_takes_more_columns_than_allowed() {
    let samples = ["", "plain text", "界界界界界", "a界b界c", "e\u{301}e\u{301}e\u{301}e\u{301}"];
    for sample in samples {
        for width in 0..12_u16 {
            let shortened = truncate_text_to_width(sample.to_string(), width);
            assert!(
                shortened == sample || shortened.width() <= usize::from(width),
                "{sample:?} in {width}: {shortened:?}"
            );
        }
    }
}

#[test]
fn a_first_line_is_no_longer_than_asked_for() {
    for max in 0..8 {
        assert!(first_line("界界界界界界\nmore", max).chars().count() <= max);
    }
    assert_eq!(first_line("abc", 0), "");
    assert_eq!(first_line("", 0), "");
    assert_eq!(first_line("abc", 1), "…");
    assert_eq!(first_line("abc", 3), "abc");
    assert_eq!(first_line("abcd", 3), "ab…");
    assert_eq!(first_line("a\r\nb", 9), "a");
    assert_eq!(first_line("\nsecond", 9), "");
}

#[test]
fn trimming_takes_white_space_off_both_ends() {
    assert_eq!(trim("  /srv/project \t\n"), "/srv/project");
    assert_eq!(trim("\u{3000}wide\u{a0}"), "wide");
    assert_eq!(trim("inner space"), "inner space");
    assert!(is_blank(" \t\u{2003}"));
    assert!(is_blank(""));
    assert!(!is_blank(" x "));
}

#[test]
fn a_measured_text_is_cut_by_its_measures() {
    let cut = |columns, widths: &[usize], width| {
        cut_to_width("abcdef".to_string(), columns, &widths.to_vec(), width)
    };
    assert_eq!(cut(6, &[1; 6], 6), "abcdef");
    assert_eq!(cut(7, &[1; 6], 6), "abc...");
    assert_eq!(cut(12, &[2; 6], 6), "a...");
    assert_eq!(cut(12, &[2; 6], 3), "a");
    assert_eq!(cut(9, &[0, 0, 3, 3, 3, 0], 7), "abc...");
    assert_eq!(cut(9, &[4, 1, 1, 1, 1, 1], 3), "");
}
