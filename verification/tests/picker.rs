use mj_tui::drafts::WizardControl;
use mj_tui::geometry::Rect;
use mj_tui::picker::{
    arrange_buttons, guardian_footnote, guardian_warning_marker, needs_guardian_warning,
    picker_columns, picker_layout, profile_headings, profile_table, render_picker, PickerCell,
    PickerChoice, PickerNavigation, COLUMN_GAP,
};
use mj_tui::records::HarnessKind;
use mj_tui::screen::{Button, TextLine, Tone};

fn cell(text: &str) -> PickerCell {
    PickerCell::text(text.into())
}

fn table(rows: &[&[&str]]) -> Vec<PickerChoice> {
    rows.iter()
        .map(|row| PickerChoice::table(row.iter().map(|text| cell(text)).collect()))
        .collect()
}

fn plain(line: &TextLine) -> String {
    line.spans.iter().map(|span| span.text.as_str()).collect()
}

fn navigation(has_back: bool, next_enabled: bool, hint: Option<&str>) -> PickerNavigation {
    PickerNavigation {
        has_back,
        selected: 0,
        control: WizardControl::BundleList,
        next_enabled,
        pinned_action: None,
        empty_hint: hint.map(str::to_string),
    }
}

fn button(control: WizardControl, label: &str) -> Button {
    Button { control, label: label.into(), enabled: true }
}

fn labels(buttons: &[Button]) -> Vec<&str> {
    buttons.iter().map(|button| button.label.as_str()).collect()
}

#[test]
fn columns_are_as_wide_as_their_widest_cell() {
    let choices = table(&[&["a", "界界"], &["long", "x", "end"], &[]]);
    let widths = picker_columns(&choices);
    assert_eq!(widths, vec![4, 4, 3]);
    for choice in &choices {
        for (index, cell) in choice.cells.iter().enumerate() {
            assert!(cell.width() <= widths[index]);
        }
    }
    assert_eq!(cell("界a").width(), 3);
    assert_eq!(
        cell("⚠ wide 界").width(),
        ratatui::text::Line::raw("⚠ wide 界").width()
    );
}

#[test]
fn cells_after_wide_ones_start_in_one_column() {
    let choices = table(&[&["界", "b", "c"], &["abc", "d", "e"]]);
    let widths = picker_columns(&choices);
    assert_eq!(plain(&choices[0].line(&widths)), "界   b  c");
    assert_eq!(plain(&choices[1].line(&widths)), "abc  d  e");
    assert_eq!(COLUMN_GAP, 2);
}

#[test]
fn a_picker_maps_its_rows_to_items_and_skips_headings() {
    let mut rows = vec![profile_headings()];
    rows.push(PickerChoice::text("first".into()));
    rows.push(PickerChoice::disabled("second".into()));
    rows.push(PickerChoice::text("third".into()).with_note("note"));
    let screen = render_picker("  Choose  ", &rows, Vec::new(), navigation(true, false, None));
    assert_eq!(screen.title, "Choose");
    assert_eq!(screen.row_map, vec![None, Some(0), Some(1), Some(2)]);
    assert_eq!(screen.row_enabled, vec![true, true, false, true]);
    assert_eq!(labels(&screen.buttons), ["Cancel", "Back", "Next"]);
    assert!(!screen.buttons[2].enabled);
    assert!(plain(&screen.rows[3]).contains("note"));
    assert_eq!(screen.height, 10);
    assert_eq!(screen.hint, None);
}

#[test]
fn an_empty_picker_shows_its_hint() {
    let screen = render_picker(
        "Bundles",
        &Vec::new(),
        Vec::new(),
        navigation(false, true, Some("No bundles yet.")),
    );
    assert_eq!(screen.hint.as_deref(), Some("No bundles yet."));
    assert_eq!(screen.height, 9);
    assert_eq!(labels(&screen.buttons), ["Cancel", "Next"]);
}

#[test]
fn a_long_picker_stays_within_its_limit() {
    let rows: Vec<PickerChoice> = (0..40).map(|n| PickerChoice::text(format!("row {n}"))).collect();
    let screen = render_picker("Rows", &rows, Vec::new(), navigation(false, true, None));
    assert_eq!(screen.height, 19);
    assert_eq!(screen.rows.len(), 40);
}

#[test]
fn the_list_and_its_help_leave_the_buttons_a_row() {
    for height in 1..12 {
        for rows in [0, 1, 5, 30] {
            for help in 0..4 {
                let content = Rect::new(2, 3, 40, height);
                let (list, below) = picker_layout(content, rows, rows == 0, help);
                assert!(list.height + below.height < height, "{height} {rows} {help}");
                assert_eq!(below.y, list.y + list.height);
            }
        }
    }
    let (list, below) = picker_layout(Rect::new(0, 0, 40, 12), 5, false, 2);
    assert_eq!(list, Rect::new(0, 0, 40, 5));
    assert_eq!(below, Rect::new(0, 5, 40, 2));
}

#[test]
fn a_pinned_action_moves_in_where_it_does_not_fit() {
    let row = || vec![button(WizardControl::Cancel, "Cancel"), button(WizardControl::Next, "Next")];
    let pinned = || Some(button(WizardControl::Add, "New bundle…"));
    // 10 + 1 + 8 columns for the row, 1 + 15 for the pinned action.
    let (buttons, kept) = arrange_buttons(row(), pinned(), 35);
    assert_eq!(labels(&buttons), ["Cancel", "Next"]);
    assert_eq!(kept, pinned());
    let (buttons, kept) = arrange_buttons(row(), pinned(), 34);
    assert_eq!(labels(&buttons), ["Cancel", "New bundle…", "Next"]);
    assert_eq!(kept, None);
    let (buttons, kept) = arrange_buttons(row(), None, 5);
    assert_eq!(labels(&buttons), ["Cancel", "Next"]);
    assert_eq!(kept, None);
}

#[test]
fn only_two_harnesses_carry_the_warning() {
    for (kind, warned) in [
        (HarnessKind::Codex, false),
        (HarnessKind::Grok, false),
        (HarnessKind::Kimi, true),
        (HarnessKind::Muse, true),
    ] {
        assert_eq!(needs_guardian_warning(kind), warned);
        assert_eq!(!guardian_warning_marker(kind).text.trim().is_empty(), warned);
    }
    assert!(plain(&guardian_footnote()).contains("No guardian approval mode"));
}

#[test]
fn a_profile_table_starts_with_its_headings() {
    let rows = profile_table(table(&[&["x"]]));
    assert_eq!(rows.len(), 2);
    assert!(rows[0].heading);
    assert!(!rows[1].heading);
    assert_eq!(rows[1].cells[0].tone, Tone::Plain);
}

#[test]
fn every_cell_starts_where_its_column_does() {
    let choices = table(&[
        &["界界", "x", "tail"],
        &["a", "longest", ""],
        &["", "b"],
        &["only"],
    ]);
    let widths = picker_columns(&choices);
    assert_eq!(widths, vec![4, 7, 4]);
    for choice in &choices {
        let line = choice.line(&widths);
        let mut column = 0;
        let mut starts = Vec::new();
        let mut spans = line.spans.iter();
        for (index, cell) in choice.cells.iter().enumerate() {
            let drawn = spans.next().expect("a cell is drawn");
            assert_eq!(drawn.text, cell.text);
            starts.push(column);
            column += cell.width();
            if index + 1 < choice.cells.len() {
                let pad = spans.next().expect("a cell that is not the last is padded");
                assert!(pad.text.chars().all(|c| c == ' '));
                column += pad.text.len();
            }
        }
        assert!(spans.next().is_none());
        assert_eq!(starts, [0, 6, 15][..choice.cells.len()]);
    }
}
