use crate::container::{centered, divided, shaved};
use crate::error::InvalidArgument;
use crate::percent::{
    accepted, complement, lemma_portion_bounds, lemma_portions_nearly_cover, portion, Percent,
    UNITS_PER_WHOLE,
};
use crate::reconcile::{horz_gap, reconciled_horz, reconciled_vert, vert_gap};
use crate::rect::{Rect, Region, Side};
use vstd::prelude::*;

verus! {

/// A rectangle that was centred lies within the one it was taken from: on no
/// side is the inset negative, and neither extent has grown.
pub proof fn lemma_center_enclosed(r: Rect, percent: Percent)
    requires
        centered(r@, percent@) is Ok,
    ensures
        r@.encloses(centered(r@, percent@)->Ok_0),
        0 <= centered(r@, percent@)->Ok_0.width <= r.width,
        0 <= centered(r@, percent@)->Ok_0.height <= r.height,
{
    lemma_portion_bounds(r.width as int, complement(percent@));
    lemma_portion_bounds(r.height as int, complement(percent@));
}

/// The two insets of a centred rectangle along one axis differ by one pixel
/// at most, and it is the far one that is the larger.
pub proof fn lemma_center_balanced(r: Rect, percent: Percent)
    requires
        centered(r@, percent@) is Ok,
    ensures
        ({
            let c = centered(r@, percent@)->Ok_0;
            let before: int = c.x - r.x;
            let after: int = r@.right() - c.right();
            before <= after <= before + 1
        }),
        ({
            let c = centered(r@, percent@)->Ok_0;
            let before: int = c.y - r.y;
            let after: int = r@.bottom() - c.bottom();
            before <= after <= before + 1
        }),
{
    lemma_portion_bounds(r.width as int, complement(percent@));
    lemma_portion_bounds(r.height as int, complement(percent@));
}

/// A percentage below zero or above one hundred is refused by every
/// operation, whatever the rectangle and the side.
pub proof fn lemma_percent_out_of_range_refused(r: Rect, percent: Percent, side: Side)
    requires
        percent@ < 0 || percent@ > UNITS_PER_WHOLE,
    ensures
        !accepted(percent@),
        centered(r@, percent@) == Err::<Region, InvalidArgument>(InvalidArgument::Percent),
        shaved(r@, percent@, side) == Err::<Region, InvalidArgument>(InvalidArgument::Percent),
        divided(r@, percent@, side) == Err::<(Region, Region), InvalidArgument>(
            InvalidArgument::Percent,
        ),
{
}

/// One hundred percent is refused by every operation: what would be taken
/// away is zero percent, and zero percent is no share.
pub proof fn lemma_full_percent_refused(r: Rect, side: Side)
    ensures
        centered(r@, UNITS_PER_WHOLE as int) == Err::<Region, InvalidArgument>(
            InvalidArgument::Percent,
        ),
        shaved(r@, UNITS_PER_WHOLE as int, side) == Err::<Region, InvalidArgument>(
            InvalidArgument::Percent,
        ),
        divided(r@, UNITS_PER_WHOLE as int, side) == Err::<(Region, Region), InvalidArgument>(
            InvalidArgument::Percent,
        ),
{
}

/// Zero percent is no share and is refused by a split; centring and shaving
/// at zero percent, where they succeed, take the whole extent away.
pub proof fn lemma_zero_percent(r: Rect, side: Side)
    ensures
        !accepted(0),
        divided(r@, 0, side) == Err::<(Region, Region), InvalidArgument>(
            InvalidArgument::Percent,
        ),
        centered(r@, 0) matches Ok(c) ==> c.width == 0 && c.height == 0,
        shaved(r@, 0, side) matches Ok(s) ==> if side.is_vertical() {
            s.height == 0 && s.width == r.width
        } else {
            s.width == 0 && s.height == r.height
        },
{
    assert(portion(r.width as int, UNITS_PER_WHOLE as int) == r.width) by (nonlinear_arith);
    assert(portion(r.height as int, UNITS_PER_WHOLE as int) == r.height) by (nonlinear_arith);
}

/// On a rectangle whose extents and edges all lie within `i32`, centring and
/// shaving succeed for every percentage from zero up to, and without, one
/// hundred, and a split succeeds for every percentage strictly between.
pub proof fn lemma_success_owed(r: Rect, percent: Percent, side: Side)
    requires
        r@.within_i32(),
        0 <= percent@ < UNITS_PER_WHOLE,
    ensures
        centered(r@, percent@) is Ok,
        shaved(r@, percent@, side) is Ok,
        0 < percent@ ==> divided(r@, percent@, side) is Ok,
{
    lemma_portion_bounds(r.width as int, complement(percent@));
    lemma_portion_bounds(r.height as int, complement(percent@));
}

/// Shaving the top leaves the height less the share of it that the
/// complement of the percentage stands for, and moves the top edge down by
/// that share.
pub proof fn lemma_shave_top_height(r: Rect, percent: Percent)
    requires
        shaved(r@, percent@, Side::Top) is Ok,
    ensures
        accepted(complement(percent@)),
        shaved(r@, percent@, Side::Top)->Ok_0.height == r.height - portion(
            r.height as int,
            complement(percent@),
        ),
        shaved(r@, percent@, Side::Top)->Ok_0.y == r.y + portion(
            r.height as int,
            complement(percent@),
        ),
{
}

/// Shaving keeps the edge opposite to the one named where it is, does not
/// touch the other axis, and never makes the rectangle larger.
pub proof fn lemma_shave_anchored(r: Rect, percent: Percent, side: Side)
    requires
        shaved(r@, percent@, side) is Ok,
    ensures
        ({
            let s = shaved(r@, percent@, side)->Ok_0;
            &&& r@.encloses(s)
            &&& 0 <= s.width <= r.width
            &&& 0 <= s.height <= r.height
            &&& match side {
                Side::Top => s.bottom() == r@.bottom() && s.x == r.x && s.width == r.width,
                Side::Bot => s.y == r.y && s.x == r.x && s.width == r.width,
                Side::Lef => s.right() == r@.right() && s.y == r.y && s.height == r.height,
                Side::Rig => s.x == r.x && s.y == r.y && s.height == r.height,
            }
        }),
{
    lemma_portion_bounds(r.width as int, complement(percent@));
    lemma_portion_bounds(r.height as int, complement(percent@));
}

/// The two pieces of a split touch exactly along the axis of the split, with
/// no strip between them and no overlap. The first begins where the
/// rectangle begins; together they are as long as the rectangle or one pixel
/// longer, never shorter; across the other axis both span the rectangle.
pub proof fn lemma_split_touches(r: Rect, percent: Percent, side: Side)
    requires
        divided(r@, percent@, side) is Ok,
    ensures
        ({
            let (a, b) = divided(r@, percent@, side)->Ok_0;
            if side.is_vertical() {
                &&& a.bottom() == b.y
                &&& a.y == r.y
                &&& r.height <= a.height + b.height <= r.height + 1
                &&& 0 <= a.height <= r.height
                &&& 0 <= b.height <= r.height
                &&& a.x == r.x && a.width == r.width
                &&& b.x == r.x && b.width == r.width
            } else {
                &&& a.right() == b.x
                &&& a.x == r.x
                &&& r.width <= a.width + b.width <= r.width + 1
                &&& 0 <= a.width <= r.width
                &&& 0 <= b.width <= r.width
                &&& a.y == r.y && a.height == r.height
                &&& b.y == r.y && b.height == r.height
            }
        }),
{
    lemma_portion_bounds(r.width as int, percent@);
    lemma_portion_bounds(r.height as int, percent@);
    lemma_portion_bounds(r.width as int, complement(percent@));
    lemma_portion_bounds(r.height as int, complement(percent@));
    lemma_portions_nearly_cover(r.width as int, percent@);
    lemma_portions_nearly_cover(r.height as int, percent@);
}

/// The two pieces of a split, each shaved on its own and before they are
/// reconciled, overlap by one pixel or touch: the two roundings never leave a
/// strip between them.
pub proof fn lemma_split_leaves_no_strip(r: Rect, percent: Percent)
    ensures
        shaved(r@, percent@, Side::Bot) matches Ok(top) ==> (shaved(
            r@,
            complement(percent@),
            Side::Top,
        ) matches Ok(bot) ==> 0 <= vert_gap(top, bot) <= 1),
        shaved(r@, percent@, Side::Rig) matches Ok(lef) ==> (shaved(
            r@,
            complement(percent@),
            Side::Lef,
        ) matches Ok(rig) ==> 0 <= horz_gap(lef, rig) <= 1),
{
    if accepted(percent@) && accepted(complement(percent@)) {
        lemma_portions_nearly_cover(r.width as int, percent@);
        lemma_portions_nearly_cover(r.height as int, percent@);
    }
}

/// The side named only chooses the axis of a split: top and bottom give the
/// same pieces, and so do left and right.
pub proof fn lemma_split_by_axis(r: Rect, percent: Percent)
    ensures
        divided(r@, percent@, Side::Top) == divided(r@, percent@, Side::Bot),
        divided(r@, percent@, Side::Lef) == divided(r@, percent@, Side::Rig),
{
}

/// Two pieces that were reconciled touch exactly, whatever lay between them
/// before, and neither has shrunk: the first was extended at most, the second
/// moved at most.
pub proof fn lemma_reconciled_touch(first: Rect, second: Rect)
    ensures
        reconciled_vert(first@, second@) matches Ok((a, b)) ==> {
            &&& a.bottom() == b.y
            &&& a.x == first.x && a.y == first.y && a.width == first.width
            &&& a.height >= first.height
            &&& b.x == second.x && b.width == second.width && b.height == second.height
            &&& b.y >= second.y
        },
        reconciled_horz(first@, second@) matches Ok((a, b)) ==> {
            &&& a.right() == b.x
            &&& a.x == first.x && a.y == first.y && a.height == first.height
            &&& a.width >= first.width
            &&& b.y == second.y && b.width == second.width && b.height == second.height
            &&& b.x >= second.x
        },
{
}

} // verus!
