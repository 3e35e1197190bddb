use xi_core_lib::selection::{SelRegion, Selection};
use xi_gesture::gesture::{DragState, Gesture, GestureContext, Granularity, region_for_gesture};
use xi_gesture::text::Text;

const SAMPLE: &str = "hello world\nfoo bar\n";

fn regions(sel: &Selection) -> Vec<(usize, usize)> {
    sel.iter().map(|r| (r.start, r.end)).collect()
}

fn selection_of(pairs: &[(usize, usize)]) -> Selection {
    let mut sel = Selection::new();
    for &(start, end) in pairs {
        sel.add_region(SelRegion::new(start, end));
    }
    sel
}

fn apply(
    text: &Text,
    sel: &Selection,
    slot: &mut Option<DragState>,
    offset: usize,
    gesture: Gesture,
) -> Selection {
    GestureContext::new(text, sel).selection_for_gesture(slot, offset, gesture)
}

#[test]
fn point_is_caret_at_offset() {
    let text = Text::from_str(SAMPLE);
    for offset in [0usize, 3, 11, 20] {
        let r = region_for_gesture(&text, offset, Granularity::Point);
        assert_eq!((r.start, r.end), (offset, offset));
    }
}

#[test]
fn word_contains_offset() {
    let text = Text::from_str(SAMPLE);
    let r = region_for_gesture(&text, 2, Granularity::Word);
    assert_eq!((r.start, r.end), (0, 5));
    let r = region_for_gesture(&text, 8, Granularity::Word);
    assert_eq!((r.start, r.end), (6, 11));
    let r = region_for_gesture(&text, 14, Granularity::Word);
    assert_eq!((r.start, r.end), (12, 15));
}

#[test]
fn line_spans_to_next_line_start() {
    let text = Text::from_str(SAMPLE);
    let r = region_for_gesture(&text, 3, Granularity::Line);
    assert_eq!((r.start, r.end), (0, 12));
    let r = region_for_gesture(&text, 14, Granularity::Line);
    assert_eq!((r.start, r.end), (12, 20));
    let r = region_for_gesture(&text, 20, Granularity::Line);
    assert_eq!((r.start, r.end), (20, 20));
}

#[test]
fn line_without_trailing_newline() {
    let text = Text::from_str("ab\ncd");
    let r = region_for_gesture(&text, 4, Granularity::Line);
    assert_eq!((r.start, r.end), (3, 5));
    let r = region_for_gesture(&text, 2, Granularity::Line);
    assert_eq!((r.start, r.end), (0, 3));
}

#[test]
fn word_select_on_empty_selection() {
    let text = Text::from_str(SAMPLE);
    let sel = Selection::new();
    let mut slot = None;
    let gesture = Gesture::Select { granularity: Granularity::Word, multi: false };
    let new = apply(&text, &sel, &mut slot, 2, gesture);
    assert_eq!(regions(&new), vec![(0, 5)]);
    let d = slot.as_ref().unwrap();
    assert_eq!((d.min, d.max), (0, 5));
    assert_eq!(d.granularity, Granularity::Word);
    assert_eq!(regions(&d.base_sel), vec![(0, 5)]);
}

#[test]
fn drag_after_word_select() {
    let text = Text::from_str(SAMPLE);
    let sel = Selection::new();
    let mut slot = None;
    let gesture = Gesture::Select { granularity: Granularity::Word, multi: false };
    let first = apply(&text, &sel, &mut slot, 2, gesture);
    let dragged = apply(&text, &first, &mut slot, 8, Gesture::Drag);
    assert_eq!(regions(&dragged), vec![(0, 11)]);
    let d = slot.as_ref().unwrap();
    assert_eq!((d.min, d.max), (0, 5));
    assert_eq!(regions(&d.base_sel), vec![(0, 5)]);
}

#[test]
fn drag_backward_uses_word_start() {
    let text = Text::from_str(SAMPLE);
    let sel = Selection::new();
    let mut slot = None;
    let gesture = Gesture::Select { granularity: Granularity::Word, multi: false };
    let first = apply(&text, &sel, &mut slot, 8, gesture);
    assert_eq!(regions(&first), vec![(6, 11)]);
    let dragged = apply(&text, &first, &mut slot, 2, Gesture::Drag);
    assert_eq!(regions(&dragged), vec![(6, 0), (6, 11)]);
}

#[test]
fn drag_twice_at_same_offset() {
    let text = Text::from_str(SAMPLE);
    let sel = Selection::new();
    let mut slot = None;
    let gesture = Gesture::Select { granularity: Granularity::Word, multi: false };
    let first = apply(&text, &sel, &mut slot, 2, gesture);
    let once = apply(&text, &first, &mut slot, 14, Gesture::Drag);
    let twice = apply(&text, &once, &mut slot, 14, Gesture::Drag);
    assert_eq!(regions(&once), vec![(0, 15)]);
    assert_eq!(regions(&once), regions(&twice));
}

#[test]
fn drag_without_state_keeps_selection() {
    let text = Text::from_str(SAMPLE);
    let sel = selection_of(&[(1, 4)]);
    let mut slot = None;
    let new = apply(&text, &sel, &mut slot, 9, Gesture::Drag);
    assert_eq!(regions(&new), vec![(1, 4)]);
    assert!(slot.is_none());
}

#[test]
fn sole_region_is_not_toggled_off() {
    let text = Text::from_str(SAMPLE);
    let sel = selection_of(&[(0, 5)]);
    let mut slot = None;
    let gesture = Gesture::Select { granularity: Granularity::Point, multi: true };
    let new = apply(&text, &sel, &mut slot, 2, gesture);
    // the caret falls inside the region and merges with it
    assert_eq!(regions(&new), vec![(0, 5)]);
    let d = slot.as_ref().unwrap();
    assert_eq!((d.min, d.max), (2, 2));
}

#[test]
fn toggle_off_removes_touched_region() {
    let text = Text::from_str(SAMPLE);
    let sel = selection_of(&[(0, 3), (6, 9)]);
    let mut slot = None;
    let gesture = Gesture::Select { granularity: Granularity::Point, multi: true };
    let new = apply(&text, &sel, &mut slot, 7, gesture);
    assert_eq!(regions(&new), vec![(0, 3)]);
    assert!(slot.is_none());
}

#[test]
fn multi_point_select_outside_regions_adds_caret() {
    let text = Text::from_str(SAMPLE);
    let sel = selection_of(&[(0, 3), (6, 9)]);
    let mut slot = None;
    let gesture = Gesture::Select { granularity: Granularity::Point, multi: true };
    let new = apply(&text, &sel, &mut slot, 15, gesture);
    assert_eq!(regions(&new), vec![(0, 3), (6, 9), (15, 15)]);
}

#[test]
fn single_select_replaces_all_regions() {
    let text = Text::from_str(SAMPLE);
    let sel = selection_of(&[(0, 3), (6, 9)]);
    let mut slot = None;
    let gesture = Gesture::Select { granularity: Granularity::Line, multi: false };
    let new = apply(&text, &sel, &mut slot, 14, gesture);
    assert_eq!(regions(&new), vec![(12, 20)]);
}

#[test]
fn extend_keeps_anchor_start() {
    let text = Text::from_str("abcd efgh ijkl mnop qrst uvwx yz");
    let sel = selection_of(&[(10, 20)]);
    let gesture = Gesture::SelectExtend { granularity: Granularity::Word };
    let mut slot = None;
    let right = apply(&text, &sel, &mut slot, 25, gesture);
    assert_eq!(regions(&right), vec![(10, 29)]);
    let d = slot.as_ref().unwrap();
    assert_eq!((d.min, d.max), (25, 29));
    let mut slot = None;
    let left = apply(&text, &sel, &mut slot, 5, gesture);
    assert_eq!(regions(&left), vec![(10, 9), (10, 20)]);
}

#[test]
fn extend_point_from_last_region() {
    let text = Text::from_str(SAMPLE);
    let sel = selection_of(&[(0, 5)]);
    let mut slot = None;
    let new = apply(&text, &sel, &mut slot, 8, Gesture::SelectExtend { granularity: Granularity::Point });
    assert_eq!(regions(&new), vec![(0, 8)]);
    let d = slot.as_ref().unwrap();
    assert_eq!((d.min, d.max), (8, 8));
}

#[test]
fn extend_on_empty_selection_is_unchanged() {
    let text = Text::from_str(SAMPLE);
    let sel = Selection::new();
    let mut slot = None;
    let new = apply(&text, &sel, &mut slot, 8, Gesture::SelectExtend { granularity: Granularity::Word });
    assert!(regions(&new).is_empty());
    assert!(slot.is_none());
}
