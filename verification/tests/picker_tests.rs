use ui::dropdown::{row_fill, row_has_arrow, visible_rows, DropdownState, Row, RowFill};
use ui::segment_picker::{segment_label, selected_index, Orientation, SegmentPickerState};
use ui::ClickState;

#[test]
fn segment_picker_new_has_no_hover() {
    let s = SegmentPickerState::new(3u8);
    assert_eq!(s.selected, 3);
    assert_eq!(s.hovered, None);
}

#[test]
fn orientation_defaults_to_horizontal() {
    assert_eq!(Orientation::default(), Orientation::Horizontal);
}

#[test]
fn segment_hover_and_leave() {
    let s = SegmentPickerState::new("a").after_segment_hover(2, true);
    assert_eq!(s.hovered, Some(2));
    let s = s.after_segment_hover(1, false);
    assert_eq!(s.hovered, Some(2));
    let s = s.after_picker_hover(true);
    assert_eq!(s.hovered, Some(2));
    let s = s.after_picker_hover(false);
    assert_eq!(s.hovered, None);
}

#[test]
fn segment_click_selects_on_completion() {
    let s = SegmentPickerState::new(1u32);
    assert_eq!(s.clone().after_segment_click(ClickState::Started, 5).selected, 1);
    assert_eq!(s.clone().after_segment_click(ClickState::Cancelled, 5).selected, 1);
    assert_eq!(s.after_segment_click(ClickState::Completed, 5).selected, 5);
}

#[test]
fn selected_index_is_first_match_or_zero() {
    let options = vec![10, 20, 30, 20];
    assert_eq!(selected_index(&options, &20), 1);
    assert_eq!(selected_index(&options, &30), 2);
    assert_eq!(selected_index(&options, &99), 0);
    let empty: Vec<i32> = vec![];
    assert_eq!(selected_index(&empty, &1), 0);
}

#[test]
fn segment_label_falls_back_to_empty() {
    let labels = vec!["One".to_string(), "Two".to_string()];
    assert_eq!(segment_label(&labels, 1), "Two");
    assert_eq!(segment_label(&labels, 2), "");
}

#[test]
fn dropdown_default_is_closed() {
    let s: DropdownState<u8> = DropdownState::default();
    assert_eq!(s.selected, 0);
    assert_eq!(s.hovered, None);
    assert!(!s.expanded);
}

#[test]
fn dropdown_click_opens_then_selects() {
    let s: DropdownState<u8> = DropdownState::default();
    let open = s.after_row_click(ClickState::Completed, false, 0);
    assert!(open.expanded);
    assert_eq!(open.selected, 0);
    let chosen = open.after_row_click(ClickState::Completed, true, 7);
    assert!(!chosen.expanded);
    assert_eq!(chosen.selected, 7);
    let pressed = chosen.clone().after_row_click(ClickState::Started, true, 9);
    assert_eq!(pressed.selected, 7);
    assert!(!pressed.expanded);
}

#[test]
fn dropdown_hover_only_when_open() {
    let s: DropdownState<u8> = DropdownState::default();
    assert_eq!(s.clone().after_row_hover(3, true, false).hovered, None);
    let s = s.after_row_hover(3, true, true);
    assert_eq!(s.hovered, Some(3));
    assert_eq!(s.clone().after_row_hover(1, false, true).hovered, Some(3));
    assert_eq!(s.clone().after_hover(true).hovered, Some(3));
    assert_eq!(s.after_hover(false).hovered, None);
}

#[test]
fn dropdown_click_outside_closes() {
    let s = DropdownState { selected: 1u8, hovered: None, expanded: true };
    assert!(s.clone().after_click_outside(ClickState::Started).expanded);
    assert!(!s.after_click_outside(ClickState::Completed).expanded);
}

#[test]
fn dropdown_rows() {
    assert_eq!(
        visible_rows(3, true, 1),
        vec![Row { index: 0, option: 0 }, Row { index: 1, option: 1 }, Row { index: 2, option: 2 }]
    );
    assert_eq!(visible_rows(3, false, 2), vec![Row { index: 0, option: 2 }]);
    assert_eq!(visible_rows(0, true, 0), vec![]);
}

#[test]
fn dropdown_row_fill() {
    assert_eq!(row_fill(1, true, 1, Some(1)), RowFill::Highlight);
    assert_eq!(row_fill(1, false, 1, Some(1)), RowFill::Hovered);
    assert_eq!(row_fill(2, true, 1, Some(2)), RowFill::Hovered);
    assert_eq!(row_fill(2, true, 1, Some(0)), RowFill::Plain);
    assert_eq!(row_fill(2, true, 1, None), RowFill::Plain);
    assert!(row_has_arrow(0));
    assert!(!row_has_arrow(1));
}
