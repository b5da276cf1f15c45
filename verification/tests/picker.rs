use television_picker::picker::Picker;

#[test]
fn test_picker_new() {
    let picker = Picker::new();
    assert_eq!(picker.selected(), None);
    assert_eq!(picker.relative_selected(), None);
    assert_eq!(picker.view_offset, 0);
    assert!(!picker.inverted);
}

#[test]
fn test_picker_inverted() {
    let picker = Picker::new().inverted();
    assert!(picker.inverted);
}

#[test]
fn test_picker_reset_selection() {
    let mut picker = Picker::new();
    picker.select(Some(1));
    picker.relative_select(Some(1));
    picker.view_offset = 1;
    picker.reset_selection();
    assert_eq!(picker.selected(), Some(0));
    assert_eq!(picker.relative_selected(), Some(0));
    assert_eq!(picker.view_offset, 0);
}

#[test]
fn test_picker_select() {
    let mut picker = Picker::new();
    assert_eq!(picker.selected(), None);
    picker.select(Some(1));
    assert_eq!(picker.selected(), Some(1));
}

#[test]
fn test_picker_relative_select() {
    let mut picker = Picker::new();
    assert_eq!(picker.relative_selected(), None);
    picker.relative_select(Some(1));
    assert_eq!(picker.relative_selected(), Some(1));
}

#[test]
fn test_picker_select_next() {
    let mut picker = Picker::new();
    picker.select(Some(1));
    picker.relative_select(Some(1));
    picker.select_next(5, 3);
    assert_eq!(picker.selected(), Some(0));
    assert_eq!(picker.relative_selected(), Some(0));
    assert_eq!(picker.view_offset, 0);
}

#[test]
fn test_default_matches_new() {
    let picker = Picker::default();
    assert_eq!(picker, Picker::new());
}

#[test]
fn test_wraparound_at_top() {
    // Moving "next" from the first item of a five-item list wraps to the
    // last item, with the window placed so the tail of the list is visible.
    let mut picker = Picker::new();
    picker.reset_selection();
    picker.select_next(5, 5);
    assert_eq!(picker.selected(), Some(4));
    assert_eq!(picker.view_offset, 2);
    assert_eq!(picker.relative_selected(), Some(2));
}

#[test]
fn test_wraparound_at_bottom() {
    // Moving "previous" from the last item of a five-item list wraps the
    // selection and the window back to the top.
    let mut picker = Picker::new();
    picker.select(Some(4));
    picker.relative_select(Some(2));
    picker.view_offset = 2;
    picker.select_prev(5, 5);
    assert_eq!(picker.selected(), Some(0));
    assert_eq!(picker.relative_selected(), Some(0));
    assert_eq!(picker.view_offset, 0);
}

#[test]
fn test_reset_selection_idempotent() {
    let mut picker = Picker::new();
    picker.select(Some(7));
    picker.relative_select(Some(2));
    picker.view_offset = 5;
    picker.reset_selection();
    let once = picker;
    picker.reset_selection();
    assert_eq!(picker, once);
    assert_eq!(picker.selected(), Some(0));
    assert_eq!(picker.relative_selected(), Some(0));
    assert_eq!(picker.view_offset, 0);
}

#[test]
fn test_inversion_symmetry_example() {
    let mut upright = Picker::new();
    upright.select(Some(3));
    upright.relative_select(Some(1));
    upright.view_offset = 2;

    let mut upside_down = Picker::new().inverted();
    upside_down.select(Some(3));
    upside_down.relative_select(Some(1));
    upside_down.view_offset = 2;

    upside_down.select_next(10, 5);
    upright.select_prev(10, 5);
    assert_eq!(upside_down.selected(), upright.selected());
    assert_eq!(upside_down.relative_selected(), upright.relative_selected());
    assert_eq!(upside_down.view_offset, upright.view_offset);
}

#[test]
fn test_round_trip_away_from_boundaries() {
    let mut picker = Picker::new();
    picker.select(Some(5));
    picker.relative_select(Some(1));
    picker.view_offset = 4;
    picker.select_next(10, 5);
    picker.select_prev(10, 5);
    assert_eq!(picker.selected(), Some(5));

    picker.select_prev(10, 5);
    picker.select_next(10, 5);
    assert_eq!(picker.selected(), Some(5));
}

#[test]
fn test_three_advances_scroll_to_tail() {
    // Ten items in a five-row window (three content rows): three "next"
    // steps from a fresh state walk the tail of the list.
    let mut picker = Picker::new();
    picker.reset_selection();
    picker.select_next(10, 5);
    assert_eq!(picker.selected(), Some(9));
    picker.select_next(10, 5);
    assert_eq!(picker.selected(), Some(8));
    picker.select_next(10, 5);
    assert_eq!(picker.selected(), Some(7));
    assert_eq!(picker.view_offset, 7);
    assert_eq!(picker.relative_selected(), Some(0));
}

#[test]
fn test_invariants_along_a_mixed_walk() {
    // selected == view_offset + relative_selected, relative index inside the
    // window, selection inside the list: checked after every step of a
    // mixed walk.
    let total: usize = 10;
    let height: usize = 5;
    let mut picker = Picker::new();
    picker.reset_selection();
    let steps = [true, true, false, true, false, false, false, true, true, false, false, true];
    for forward in steps {
        if forward {
            picker.select_next(total, height);
        } else {
            picker.select_prev(total, height);
        }
        let s: usize = picker.selected().unwrap();
        let r: usize = picker.relative_selected().unwrap();
        assert_eq!(s, picker.view_offset + r);
        assert!(r < height);
        assert!(s < total);
    }
}

#[test]
fn test_navigation_on_empty_list() {
    // "Previous" on an empty list is a defensive no-op; "next" wraps but
    // leaves the selection empty.
    let mut picker = Picker::new();
    picker.reset_selection();
    let before = picker;
    picker.select_prev(0, 5);
    assert_eq!(picker, before);
    picker.select_next(0, 5);
    assert_eq!(picker.selected(), None);
    assert_eq!(picker.relative_selected(), Some(2));
    assert_eq!(picker.view_offset, 0);
}

#[test]
fn test_tiny_window_degrades_to_zero_rows() {
    // With fewer than three rows the row-reservation arithmetic saturates:
    // the relative index pins to 0 and the offset grows to the list length.
    let mut picker = Picker::new();
    picker.reset_selection();
    picker.select_next(5, 2);
    assert_eq!(picker.selected(), Some(4));
    assert_eq!(picker.relative_selected(), Some(0));
    assert_eq!(picker.view_offset, 5);
}

#[test]
fn test_relative_index_never_passes_absolute() {
    // The increment step clamps the relative index at the new absolute
    // index, even when the stored relative index is out of range.
    let mut picker = Picker::new();
    picker.select(Some(0));
    picker.relative_select(Some(5));
    picker.select_prev(10, 10);
    assert_eq!(picker.selected(), Some(1));
    assert_eq!(picker.relative_selected(), Some(1));
}

#[test]
fn test_scroll_down_from_last_content_row() {
    // A "previous" step from the last content row scrolls the window one
    // row down.
    let mut picker = Picker::new();
    picker.select(Some(2));
    picker.relative_select(Some(2));
    picker.view_offset = 0;
    picker.select_prev(10, 5);
    assert_eq!(picker.selected(), Some(3));
    assert_eq!(picker.relative_selected(), Some(2));
    assert_eq!(picker.view_offset, 1);
}
