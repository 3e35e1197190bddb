//! The region set: an outside selection type, seen through the (start, end)
//! pairs of its regions.

use vstd::prelude::*;
use xi_core_lib::selection::{SelRegion, Selection};

verus! {

#[verifier::external_type_specification]
#[verifier::external_body]
pub struct ExSelection(xi_core_lib::selection::Selection);

#[verifier::external_type_specification]
#[verifier::external_body]
pub struct ExSelRegion(xi_core_lib::selection::SelRegion);

/// The (start, end) of each region of a selection, in order.
pub uninterp spec fn regions_of(s: Selection) -> Seq<(usize, usize)>;

/// The regions after a region is added with merging of overlaps.
pub uninterp spec fn with_region_added(regions: Seq<(usize, usize)>, start: usize, end: usize) -> Seq<(usize, usize)>;

/// How many regions contain or touch an offset.
pub uninterp spec fn touching_count(regions: Seq<(usize, usize)>, offset: usize) -> nat;

/// The regions left when those that contain or touch an offset are deleted.
pub uninterp spec fn without_touching(regions: Seq<(usize, usize)>, offset: usize) -> Seq<(usize, usize)>;

/// Relies on `From<SelRegion> for Selection` and `SelRegion::new`: a
/// selection of exactly that one region.
#[verifier::external_body]
pub(crate) fn single_region(start: usize, end: usize) -> (r: Selection)
    ensures
        regions_of(r) == seq![(start, end)],
{
    Selection::from(SelRegion::new(start, end))
}

/// Relies on the derived `Clone` of `Selection`: the same regions.
#[verifier::external_body]
pub(crate) fn copy_selection(s: &Selection) -> (r: Selection)
    ensures
        regions_of(r) == regions_of(*s),
{
    s.clone()
}

/// Relies on the slice length reached through `Selection`'s `Deref`.
#[verifier::external_body]
pub(crate) fn region_count(s: &Selection) -> (r: usize)
    ensures
        r == regions_of(*s).len(),
{
    s.len()
}

/// Relies on the slice `last` reached through `Selection`'s `Deref`.
#[verifier::external_body]
pub(crate) fn last_region(s: &Selection) -> (r: Option<(usize, usize)>)
    ensures
        regions_of(*s).len() == 0 ==> r is None,
        regions_of(*s).len() > 0 ==> r == Some(regions_of(*s).last()),
{
    s.last().map(|r| (r.start, r.end))
}

/// Relies on `Selection::add_region` with a region made by `SelRegion::new`,
/// which carries no horizontal position; the result always has a region.
#[verifier::external_body]
pub(crate) fn add_region(s: &mut Selection, start: usize, end: usize)
    ensures
        regions_of(*final(s)) == with_region_added(regions_of(*old(s)), start, end),
        regions_of(*final(s)).len() > 0,
{
    s.add_region(SelRegion::new(start, end))
}

/// Relies on `Selection::regions_in_range(offset, offset)`: the length of the
/// slice of regions it returns, a part of all the regions.
#[verifier::external_body]
pub(crate) fn count_touching(s: &Selection, offset: usize) -> (r: usize)
    ensures
        r == touching_count(regions_of(*s), offset),
        r <= regions_of(*s).len(),
{
    s.regions_in_range(offset, offset).len()
}

/// Relies on `Selection::delete_range(offset, offset, true)`, which removes
/// the same regions that `regions_in_range(offset, offset)` returns.
#[verifier::external_body]
pub(crate) fn delete_touching(s: &mut Selection, offset: usize)
    ensures
        regions_of(*final(s)) == without_touching(regions_of(*old(s)), offset),
        regions_of(*final(s)).len() + touching_count(regions_of(*old(s)), offset)
            == regions_of(*old(s)).len(),
{
    s.delete_range(offset, offset, true)
}

} // verus!
