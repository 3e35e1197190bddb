//! Turning a pointer gesture at an offset into a new selection, with the
//! drag state that carries a drag or extension across events.

use vstd::prelude::*;
use xi_core_lib::selection::Selection;
use crate::text::{
    Text, rope_bytes, word_bounds, newlines_before, line_start, is_line_start,
    is_char_boundary, text_len, line_of_offset, offset_of_line, select_word,
    lemma_newlines_monotone, lemma_newlines_bounded, lemma_line_start_is,
};
use crate::regions::{
    regions_of, with_region_added, touching_count, without_touching, single_region,
    copy_selection, region_count, last_region, add_region, count_touching, delete_touching,
};

verus! {

/// How far a single offset expands.
#[derive(Clone, Copy, Debug, PartialEq, Eq, Structural)]
pub enum Granularity {
    Point,
    Word,
    Line,
}

/// A classified pointer event.
#[derive(Clone, Copy, Debug, PartialEq, Eq, Structural)]
pub enum Gesture {
    Select { granularity: Granularity, multi: bool },
    SelectExtend { granularity: Granularity },
    Drag,
}

/// A half-open range of byte offsets; a caret when `start == end`.
#[derive(Clone, Copy, Debug, PartialEq, Eq, Structural)]
pub struct Region {
    pub start: usize,
    pub end: usize,
}

/// The region that `offset` expands to under `g`.
pub open spec fn region_spec(b: Seq<u8>, offset: usize, g: Granularity) -> (usize, usize) {
    match g {
        Granularity::Point => (offset, offset),
        Granularity::Word => word_bounds(b, offset),
        Granularity::Line => {
            let l = newlines_before(b, offset as int) as int;
            (line_start(b, l) as usize, line_start(b, l + 1) as usize)
        },
    }
}

/// `offset` can be resolved under `g` in the text `b`.
pub open spec fn offset_ok(b: Seq<u8>, offset: usize, g: Granularity) -> bool {
    offset <= b.len() && (g == Granularity::Word ==> is_char_boundary(b, offset as int))
}

/// The region of a drag from an anchor that starts at `anchor_start`: its
/// far edge is the end of the region under the pointer when the pointer is
/// at or after the anchor's start, and that region's start otherwise.
pub open spec fn extension_spec(b: Seq<u8>, anchor_start: usize, offset: usize, g: Granularity) -> (usize, usize) {
    let e = region_spec(b, offset, g);
    if offset >= anchor_start {
        (anchor_start, e.1)
    } else {
        (anchor_start, e.0)
    }
}

/// Resolves `offset` into one region under `granularity`.
pub fn region_for_gesture(text: &Text, offset: usize, granularity: Granularity) -> (r: Region)
    requires
        offset_ok(rope_bytes(*text), offset, granularity),
    ensures
        (r.start, r.end) == region_spec(rope_bytes(*text), offset, granularity),
        r.start <= r.end,
        granularity == Granularity::Point ==> r.start == offset && r.end == offset,
        granularity == Granularity::Word ==> r.start <= offset <= r.end,
        granularity == Granularity::Line ==> {
            let b = rope_bytes(*text);
            let l = newlines_before(b, offset as int) as int;
            &&& is_line_start(b, l, r.start as int)
            &&& is_line_start(b, l + 1, r.end as int)
            &&& r.start <= offset <= r.end
        },
{
    match granularity {
        Granularity::Point => Region { start: offset, end: offset },
        Granularity::Word => {
            let (start, end) = select_word(text, offset);
            Region { start, end }
        },
        Granularity::Line => {
            let ghost b = rope_bytes(*text);
            let line = line_of_offset(text, offset);
            proof {
                lemma_newlines_monotone(b, offset as int, b.len() as int);
            }
            let start = offset_of_line(text, line);
            let end = if line < usize::MAX {
                offset_of_line(text, line + 1)
            } else {
                proof {
                    lemma_newlines_bounded(b, b.len() as int);
                }
                text_len(text)
            };
            proof {
                lemma_line_start_is(b, line as int, start as int);
                lemma_line_start_is(b, line as int + 1, end as int);
                lemma_line_bounds(b, offset as int, start as int, end as int);
            }
            Region { start, end }
        },
    }
}

/// The line starts around an offset enclose it.
proof fn lemma_line_bounds(b: Seq<u8>, offset: int, start: int, end: int)
    requires
        0 <= offset <= b.len(),
        is_line_start(b, newlines_before(b, offset) as int, start),
        is_line_start(b, newlines_before(b, offset) as int + 1, end),
    ensures
        start <= offset <= end,
{
    let l = newlines_before(b, offset) as int;
    lemma_newlines_monotone(b, offset, b.len() as int);
    if l > 0 && start > offset {
        lemma_newlines_monotone(b, offset, start - 1);
    }
    if end < offset {
        lemma_newlines_monotone(b, end, offset);
    }
}


/// Resolves a drag or extension at `offset` from an anchor region
/// `[active_start, active_end)`.
fn region_extending_region(
    text: &Text,
    active_start: usize,
    active_end: usize,
    offset: usize,
    granularity: Granularity,
) -> (r: Region)
    requires
        offset_ok(rope_bytes(*text), offset, granularity),
    ensures
        (r.start, r.end) == extension_spec(rope_bytes(*text), active_start, offset, granularity),
{
    let extension = region_for_gesture(text, offset, granularity);
    if offset >= active_start {
        Region { start: active_start, end: extension.end }
    } else {
        Region { start: active_start, end: extension.start }
    }
}

/// What a drag state holds, as values.
pub struct DragView {
    pub base: Seq<(usize, usize)>,
    pub min: usize,
    pub max: usize,
    pub granularity: Granularity,
}

/// State required to resolve a drag gesture into a selection.
pub struct DragState {
    /// All the selection regions other than the one being dragged.
    pub base_sel: Selection,
    /// Start of the region selected when the drag was started.
    pub min: usize,
    /// End of the region selected when the drag was started.
    pub max: usize,
    pub granularity: Granularity,
}

impl View for DragState {
    type V = DragView;

    open spec fn view(&self) -> DragView {
        DragView { base: regions_of(self.base_sel), min: self.min, max: self.max, granularity: self.granularity }
    }
}

/// The values held in a drag-state slot.
pub open spec fn slot_view(d: Option<DragState>) -> Option<DragView> {
    match d {
        Some(s) => Some(s@),
        None => None,
    }
}

/// A point click with `multi` that lands on a region of a selection of more
/// than one region takes that region away.
pub open spec fn is_toggle_off(regions: Seq<(usize, usize)>, offset: usize, g: Gesture) -> bool {
    g == (Gesture::Select { granularity: Granularity::Point, multi: true })
        && touching_count(regions, offset) > 0 && regions.len() > 1
}

/// The region that a shift-click adds: from the start of the active region
/// to the far edge of the region under the pointer.
pub open spec fn extend_region(b: Seq<u8>, active: (usize, usize), offset: usize, g: Granularity) -> (usize, usize) {
    let r = region_spec(b, offset, g);
    if offset >= r.0 {
        (active.0, r.1)
    } else {
        (active.0, r.0)
    }
}

/// Every offset that a gesture resolves can be resolved in `b`.
pub open spec fn gesture_ok(b: Seq<u8>, drag: Option<DragView>, offset: usize, g: Gesture) -> bool {
    match g {
        Gesture::Select { granularity, multi } => offset_ok(b, offset, granularity),
        Gesture::SelectExtend { granularity } => offset_ok(b, offset, granularity),
        Gesture::Drag => match drag {
            Some(d) => offset_ok(b, offset, d.granularity),
            None => true,
        },
    }
}

/// The selection and the drag-state slot after gesture `g` at `offset`, from
/// the regions `regions` and the slot `drag`.
pub open spec fn gesture_outcome(
    b: Seq<u8>,
    regions: Seq<(usize, usize)>,
    drag: Option<DragView>,
    offset: usize,
    g: Gesture,
) -> (Seq<(usize, usize)>, Option<DragView>) {
    match g {
        Gesture::Select { granularity, multi } => if is_toggle_off(regions, offset, g) {
            (without_touching(regions, offset), drag)
        } else {
            let r = region_spec(b, offset, granularity);
            let sel = if multi { with_region_added(regions, r.0, r.1) } else { seq![r] };
            (sel, Some(DragView { base: sel, min: r.0, max: r.1, granularity }))
        },
        Gesture::SelectExtend { granularity } => if regions.len() == 0 {
            (regions, drag)
        } else {
            let r = region_spec(b, offset, granularity);
            let m = extend_region(b, regions.last(), offset, granularity);
            let sel = with_region_added(regions, m.0, m.1);
            (sel, Some(DragView { base: sel, min: r.0, max: r.1, granularity }))
        },
        Gesture::Drag => match drag {
            None => (regions, drag),
            Some(d) => {
                let r = extension_spec(b, d.min, offset, d.granularity);
                (with_region_added(d.base, r.0, r.1), drag)
            },
        },
    }
}

/// The text and the current selection that a gesture is resolved against.
pub struct GestureContext<'a> {
    pub text: &'a Text,
    pub sel: &'a Selection,
}

impl<'a> GestureContext<'a> {
    pub fn new(text: &'a Text, sel: &'a Selection) -> (r: Self)
        ensures
            r.text == text,
            r.sel == sel,
    {
        GestureContext { text, sel }
    }

    /// The selection after `gesture` at `offset`. The drag-state slot is
    /// overwritten by a select or an extension and read by a drag.
    pub fn selection_for_gesture(
        &self,
        drag_state: &mut Option<DragState>,
        offset: usize,
        gesture: Gesture,
    ) -> (r: Selection)
        requires
            gesture_ok(rope_bytes(*self.text), slot_view(*old(drag_state)), offset, gesture),
        ensures
            (regions_of(r), slot_view(*final(drag_state))) == gesture_outcome(
                rope_bytes(*self.text),
                regions_of(*self.sel),
                slot_view(*old(drag_state)),
                offset,
                gesture,
            ),
            is_toggle_off(regions_of(*self.sel), offset, gesture) ==> regions_of(r).len()
                + touching_count(regions_of(*self.sel), offset) == regions_of(*self.sel).len(),
            regions_of(*self.sel).len() > 0 && !is_toggle_off(regions_of(*self.sel), offset, gesture)
                ==> regions_of(r).len() > 0,
    {
        let ghost b = rope_bytes(*self.text);
        if let Gesture::Select { granularity: Granularity::Point, multi: true } = gesture {
            // the last region is never toggled off
            if count_touching(self.sel, offset) != 0 && region_count(self.sel) > 1 {
                let mut new = copy_selection(self.sel);
                delete_touching(&mut new, offset);
                return new;
            }
        }
        match gesture {
            Gesture::Select { granularity, multi } => {
                let new_region = region_for_gesture(self.text, offset, granularity);
                let new_sel = if multi {
                    let mut new = copy_selection(self.sel);
                    add_region(&mut new, new_region.start, new_region.end);
                    new
                } else {
                    single_region(new_region.start, new_region.end)
                };
                *drag_state = Some(DragState {
                    base_sel: copy_selection(&new_sel),
                    min: new_region.start,
                    max: new_region.end,
                    granularity,
                });
                new_sel
            },
            Gesture::SelectExtend { granularity } => {
                if region_count(self.sel) == 0 {
                    return copy_selection(self.sel);
                }
                let active = match last_region(self.sel) {
                    Some(a) => a,
                    None => (0, 0),
                };
                let new_region = region_for_gesture(self.text, offset, granularity);
                let merged_end = if offset >= new_region.start {
                    new_region.end
                } else {
                    new_region.start
                };
                let mut new = copy_selection(self.sel);
                add_region(&mut new, active.0, merged_end);
                *drag_state = Some(DragState {
                    base_sel: copy_selection(&new),
                    min: new_region.start,
                    max: new_region.end,
                    granularity,
                });
                new
            },
            Gesture::Drag => {
                match drag_state {
                    Some(d) => {
                        let new_region = region_extending_region(
                            self.text,
                            d.min,
                            d.max,
                            offset,
                            d.granularity,
                        );
                        let mut sel = copy_selection(&d.base_sel);
                        add_region(&mut sel, new_region.start, new_region.end);
                        sel
                    },
                    None => copy_selection(self.sel),
                }
            },
        }
    }
}

} // verus!
