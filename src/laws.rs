//! Properties that hold across gestures.

use vstd::prelude::*;
use crate::regions::with_region_added;
use crate::gesture::{
    Gesture, Granularity, DragView, gesture_outcome, is_toggle_off, extend_region, extension_spec,
    region_spec,
};

verus! {

/// A point click with `multi` on a selection of one region never takes that
/// region away: it is resolved as an ordinary multi-select, which adds a caret.
pub proof fn lemma_sole_region_not_toggled(
    b: Seq<u8>,
    regions: Seq<(usize, usize)>,
    drag: Option<DragView>,
    offset: usize,
)
    requires
        regions.len() == 1,
    ensures
        ({
            let g = Gesture::Select { granularity: Granularity::Point, multi: true };
            &&& !is_toggle_off(regions, offset, g)
            &&& gesture_outcome(b, regions, drag, offset, g).0 == with_region_added(regions, offset, offset)
        }),
{
}

/// A drag repeated at the same offset, from the selection and slot that the
/// first one left, gives the same selection and leaves the slot as it was.
pub proof fn lemma_drag_at_rest(
    b: Seq<u8>,
    regions: Seq<(usize, usize)>,
    drag: Option<DragView>,
    offset: usize,
)
    ensures
        ({
            let first = gesture_outcome(b, regions, drag, offset, Gesture::Drag);
            let second = gesture_outcome(b, first.0, first.1, offset, Gesture::Drag);
            &&& first.1 == drag
            &&& second == first
        }),
{
}

/// An extension keeps the start of the active region whichever side of it
/// the pointer is on, and so does a drag with the start of its anchor; only
/// the far edge depends on the pointer.
pub proof fn lemma_extend_keeps_anchor_start(
    b: Seq<u8>,
    active: (usize, usize),
    before: usize,
    after: usize,
    g: Granularity,
)
    ensures
        extend_region(b, active, before, g).0 == active.0,
        extend_region(b, active, after, g).0 == active.0,
        extension_spec(b, active.0, before, g).0 == active.0,
        extension_spec(b, active.0, after, g).0 == active.0,
        extend_region(b, active, after, g).1 == (if after >= region_spec(b, after, g).0 {
            region_spec(b, after, g).1
        } else {
            region_spec(b, after, g).0
        }),
        extend_region(b, active, before, g).1 == (if before >= region_spec(b, before, g).0 {
            region_spec(b, before, g).1
        } else {
            region_spec(b, before, g).0
        }),
{
}

} // verus!
