use crate::error::InvalidArgument;
use crate::rect::{fits_i32, lifted_pair, Rect, Region};
use vstd::math::max;
use vstd::prelude::*;

verus! {

/// How far the bottom edge of `top` reaches past the top edge of `bot`:
/// positive where the two overlap, negative where a strip between them is
/// left uncovered, zero where they touch.
pub open spec fn vert_gap(top: Region, bot: Region) -> int {
    top.bottom() - bot.y
}

/// How far the right edge of `lef` reaches past the left edge of `rig`.
pub open spec fn horz_gap(lef: Region, rig: Region) -> int {
    lef.right() - rig.x
}

/// The pair `(top, bot)` made to touch. The two meet on the lower of the
/// bottom edge of `top` and the top edge of `bot`: `top` is extended down to
/// that line and `bot` is moved down to it, so that neither piece shrinks and
/// one of them stays as it is.
///
/// There is no such pair where the height of `top` or the gap between the
/// two is beyond `i32`, or where `bot` would begin beyond it.
pub open spec fn reconciled_vert(top: Region, bot: Region) -> Result<
    (Region, Region),
    InvalidArgument,
> {
    let meet: int = max(top.bottom(), bot.y);
    if top.height > i32::MAX || !fits_i32(vert_gap(top, bot)) || meet > i32::MAX {
        Err(InvalidArgument::Magnitude)
    } else {
        Ok(
            (
                Region { x: top.x, y: top.y, width: top.width, height: meet - top.y },
                Region { x: bot.x, y: meet, width: bot.width, height: bot.height },
            ),
        )
    }
}

/// The pair `(lef, rig)` made to touch on the further right of the right
/// edge of `lef` and the left edge of `rig`, as `reconciled_vert` does it
/// along the other axis.
pub open spec fn reconciled_horz(lef: Region, rig: Region) -> Result<
    (Region, Region),
    InvalidArgument,
> {
    let meet: int = max(lef.right(), rig.x);
    if lef.width > i32::MAX || !fits_i32(horz_gap(lef, rig)) || meet > i32::MAX {
        Err(InvalidArgument::Magnitude)
    } else {
        Ok(
            (
                Region { x: lef.x, y: lef.y, width: meet - lef.x, height: lef.height },
                Region { x: meet, y: rig.y, width: rig.width, height: rig.height },
            ),
        )
    }
}

/// The gap between two pieces that lie one above the other.
///
/// Fails exactly when the height of `top` or the gap itself is beyond `i32`.
pub fn vert_diff(top: Rect, bot: Rect) -> (r: Result<i32, InvalidArgument>)
    ensures
        match r {
            Ok(gap) => top.height <= i32::MAX && gap == vert_gap(top@, bot@),
            Err(e) => (top.height > i32::MAX || !fits_i32(vert_gap(top@, bot@))) && e
                == InvalidArgument::Magnitude,
        },
{
    if top.height <= i32::MAX as u32 {
        let gap: i64 = top.y as i64 + top.height as i64 - bot.y as i64;
        if i32::MIN as i64 <= gap && gap <= i32::MAX as i64 {
            Ok(gap as i32)
        } else {
            Err(InvalidArgument::Magnitude)
        }
    } else {
        Err(InvalidArgument::Magnitude)
    }
}

/// The gap between two pieces that lie side by side.
///
/// Fails exactly when the width of `lef` or the gap itself is beyond `i32`.
pub fn horz_diff(lef: Rect, rig: Rect) -> (r: Result<i32, InvalidArgument>)
    ensures
        match r {
            Ok(gap) => lef.width <= i32::MAX && gap == horz_gap(lef@, rig@),
            Err(e) => (lef.width > i32::MAX || !fits_i32(horz_gap(lef@, rig@))) && e
                == InvalidArgument::Magnitude,
        },
{
    if lef.width <= i32::MAX as u32 {
        let gap: i64 = lef.x as i64 + lef.width as i64 - rig.x as i64;
        if i32::MIN as i64 <= gap && gap <= i32::MAX as i64 {
            Ok(gap as i32)
        } else {
            Err(InvalidArgument::Magnitude)
        }
    } else {
        Err(InvalidArgument::Magnitude)
    }
}

/// Makes two pieces that lie one above the other touch exactly.
///
/// Where they overlap, `bot` is moved down by the overlap; where a strip is
/// left between them, `top` is extended by the height of the strip; where
/// they touch, both are handed back as they are. Fails exactly when the gap
/// cannot be measured, or when `bot` would have to move beyond `i32`.
pub fn reconcile_vert(top: Rect, bot: Rect) -> (r: Result<(Rect, Rect), InvalidArgument>)
    ensures
        lifted_pair(r) == reconciled_vert(top@, bot@),
{
    let gap: i32 = match vert_diff(top, bot) {
        Ok(gap) => gap,
        Err(e) => { return Err(e); },
    };
    if gap > 0 {
        match bot.y.checked_add(gap) {
            Some(y) => Ok((top, Rect::new(bot.x, y, bot.width, bot.height))),
            None => Err(InvalidArgument::Magnitude),
        }
    } else if gap == 0 {
        Ok((top, bot))
    } else {
        let grown: i64 = top.height as i64 - gap as i64;
        Ok((Rect::new(top.x, top.y, top.width, grown as u32), bot))
    }
}

/// Makes two pieces that lie side by side touch exactly, as
/// `reconcile_vert` does it along the other axis.
pub fn reconcile_horz(lef: Rect, rig: Rect) -> (r: Result<(Rect, Rect), InvalidArgument>)
    ensures
        lifted_pair(r) == reconciled_horz(lef@, rig@),
{
    let gap: i32 = match horz_diff(lef, rig) {
        Ok(gap) => gap,
        Err(e) => { return Err(e); },
    };
    if gap > 0 {
        match rig.x.checked_add(gap) {
            Some(x) => Ok((lef, Rect::new(x, rig.y, rig.width, rig.height))),
            None => Err(InvalidArgument::Magnitude),
        }
    } else if gap == 0 {
        Ok((lef, rig))
    } else {
        let grown: i64 = lef.width as i64 - gap as i64;
        Ok((Rect::new(lef.x, lef.y, grown as u32, lef.height), rig))
    }
}

} // verus!
