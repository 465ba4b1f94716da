use crate::error::InvalidArgument;
use crate::percent::{
    accepted, complement, half_percent_i32, lemma_portion_bounds, lemma_portions_nearly_cover,
    percent_i32, percent_u32, portion, Percent,
};
use crate::reconcile::{reconcile_horz, reconcile_vert, reconciled_horz, reconciled_vert};
use crate::rect::{lifted, lifted_pair, Rect, Region, Side};
use vstd::prelude::*;

verus! {

/// The rectangle of `scaled` units of the size of `r`, centred within it.
///
/// With `cut` the share that is taken away, `100 % - scaled`: the corner
/// moves in by half of the cut share of each extent, and each extent shrinks
/// by the whole of it. The halves and the shares are rounded down one by one.
pub open spec fn centered(r: Region, scaled: int) -> Result<Region, InvalidArgument> {
    let cut: int = complement(scaled);
    let across: int = portion(r.width, cut);
    let down: int = portion(r.height, cut);
    if !accepted(cut) {
        Err(InvalidArgument::Percent)
    } else if across > i32::MAX || r.x + across / 2 > i32::MAX {
        Err(InvalidArgument::Magnitude)
    } else if down > i32::MAX || r.y + down / 2 > i32::MAX {
        Err(InvalidArgument::Magnitude)
    } else {
        Ok(
            Region {
                x: r.x + across / 2,
                y: r.y + down / 2,
                width: r.width - across,
                height: r.height - down,
            },
        )
    }
}

/// The rectangle `r` cut down to `scaled` units of its extent by taking the
/// rest away at `side`; the opposite edge stays where it is.
pub open spec fn shaved(r: Region, scaled: int, side: Side) -> Result<Region, InvalidArgument> {
    let cut: int = complement(scaled);
    let down: int = portion(r.height, cut);
    let across: int = portion(r.width, cut);
    if !accepted(cut) {
        Err(InvalidArgument::Percent)
    } else {
        match side {
            Side::Top => if down > i32::MAX || r.y + down > i32::MAX {
                Err(InvalidArgument::Magnitude)
            } else {
                Ok(Region { x: r.x, y: r.y + down, width: r.width, height: r.height - down })
            },
            Side::Bot => Ok(
                Region { x: r.x, y: r.y, width: r.width, height: r.height - down },
            ),
            Side::Lef => if across > i32::MAX || r.x + across > i32::MAX {
                Err(InvalidArgument::Magnitude)
            } else {
                Ok(Region { x: r.x + across, y: r.y, width: r.width - across, height: r.height })
            },
            Side::Rig => Ok(
                Region { x: r.x, y: r.y, width: r.width - across, height: r.height },
            ),
        }
    }
}

/// The two pieces into which `r` is split at `scaled` units of its extent,
/// along the axis that `side` lies on.
///
/// The first piece keeps the corner of `r` and takes what is left of the
/// extent once the complement's share, rounded down, is removed. The second
/// begins where the first ends and takes what is left once the share of
/// `scaled` itself, rounded down, is removed. Where the two roundings
/// disagree the pieces together are one pixel longer than `r`.
pub open spec fn divided(r: Region, scaled: int, side: Side) -> Result<
    (Region, Region),
    InvalidArgument,
> {
    if !accepted(scaled) || !accepted(complement(scaled)) {
        Err(InvalidArgument::Percent)
    } else if side.is_vertical() {
        let near: int = r.height - portion(r.height, complement(scaled));
        let far: int = r.height - portion(r.height, scaled);
        if near > i32::MAX || r.y + near > i32::MAX {
            Err(InvalidArgument::Magnitude)
        } else {
            Ok(
                (
                    Region { x: r.x, y: r.y, width: r.width, height: near },
                    Region { x: r.x, y: r.y + near, width: r.width, height: far },
                ),
            )
        }
    } else {
        let near: int = r.width - portion(r.width, complement(scaled));
        let far: int = r.width - portion(r.width, scaled);
        if near > i32::MAX || r.x + near > i32::MAX {
            Err(InvalidArgument::Magnitude)
        } else {
            Ok(
                (
                    Region { x: r.x, y: r.y, width: near, height: r.height },
                    Region { x: r.x + near, y: r.y, width: far, height: r.height },
                ),
            )
        }
    }
}

/// The split as it is carried out: shave the far edge off for the first
/// piece, shave the near edge off by the complement for the second, then
/// reconcile the two.
pub open spec fn divided_stepwise(r: Region, scaled: int, side: Side) -> Result<
    (Region, Region),
    InvalidArgument,
> {
    if side.is_vertical() {
        match shaved(r, scaled, Side::Bot) {
            Ok(top) => match shaved(r, complement(scaled), Side::Top) {
                Ok(bot) => reconciled_vert(top, bot),
                Err(e) => Err(e),
            },
            Err(e) => Err(e),
        }
    } else {
        match shaved(r, scaled, Side::Rig) {
            Ok(lef) => match shaved(r, complement(scaled), Side::Lef) {
                Ok(rig) => reconciled_horz(lef, rig),
                Err(e) => Err(e),
            },
            Err(e) => Err(e),
        }
    }
}

/// Shaving twice and reconciling gives the two pieces that `divided` names,
/// and fails where and as `divided` says.
pub proof fn lemma_divided_stepwise(r: Region, scaled: int, side: Side)
    requires
        0 <= r.width,
        0 <= r.height,
    ensures
        divided_stepwise(r, scaled, side) == divided(r, scaled, side),
{
    if accepted(scaled) && accepted(complement(scaled)) {
        lemma_portion_bounds(r.height, scaled);
        lemma_portion_bounds(r.height, complement(scaled));
        lemma_portions_nearly_cover(r.height, scaled);
        lemma_portion_bounds(r.width, scaled);
        lemma_portion_bounds(r.width, complement(scaled));
        lemma_portions_nearly_cover(r.width, scaled);
    }
}

/// A region of the screen that can be divided by percentage.
pub trait Container {
    /// The rectangle that the container covers.
    spec fn region(&self) -> Region;

    /// The rectangle of `percent` of the size of this one, centred within it.
    ///
    /// Fails with `Percent` exactly when the share that is cut away,
    /// `100 % - percent`, lies outside `(0, 100]`, which is when `percent`
    /// lies outside `[0, 100)`. Otherwise fails with `Magnitude` exactly when
    /// a share that is cut away, or the corner moved by half of it, is beyond
    /// `i32`.
    fn center(&self, percent: Percent) -> (r: Result<Rect, InvalidArgument>)
        ensures
            lifted(r) == centered(self.region(), percent@),
    ;

    /// This rectangle cut down to `percent` of its extent at the edge `tblr`,
    /// with the opposite edge kept where it is.
    ///
    /// Fails with `Percent` exactly when the share that is cut away,
    /// `100 % - percent`, lies outside `(0, 100]`, which is when `percent`
    /// lies outside `[0, 100)`. Otherwise fails with `Magnitude` exactly when
    /// the top or the left edge would have to move by, or to, more than `i32`
    /// holds; the bottom and the right edge are cut without moving a corner.
    fn shave(&self, percent: Percent, tblr: Side) -> (r: Result<Rect, InvalidArgument>)
        ensures
            lifted(r) == shaved(self.region(), percent@, tblr),
    ;

    /// The two pieces into which this rectangle is split at `percent` of its
    /// extent: top and bottom where `tblr` is the top or the bottom, left and
    /// right otherwise. The two touch exactly.
    ///
    /// Fails with `Percent` exactly when `percent` or `100 % - percent` lies
    /// outside `(0, 100]`, which is when `percent` is not strictly between
    /// zero and one hundred. Otherwise fails with `Magnitude` exactly when
    /// the line on which the pieces meet is beyond `i32`, as an extent of the
    /// first piece or as a coordinate of the second.
    fn split(&self, percent: Percent, tblr: Side) -> (r: Result<(Rect, Rect), InvalidArgument>)
        ensures
            lifted_pair(r) == divided(self.region(), percent@, tblr),
    ;
}

impl Container for Rect {
    open spec fn region(&self) -> Region {
        self@
    }

    fn center(&self, percent: Percent) -> (r: Result<Rect, InvalidArgument>) {
        let out_of_100: Percent = match percent.complement() {
            Ok(rest) => rest,
            Err(e) => { return Err(e); },
        };
        proof {
            lemma_portion_bounds(self.width as int, out_of_100@);
            lemma_portion_bounds(self.height as int, out_of_100@);
        }
        let across: i32 = match half_percent_i32(self.width, out_of_100) {
            Ok(half) => half,
            Err(e) => { return Err(e); },
        };
        let down: i32 = match half_percent_i32(self.height, out_of_100) {
            Ok(half) => half,
            Err(e) => { return Err(e); },
        };
        let x: i32 = match self.x.checked_add(across) {
            Some(x) => x,
            None => { return Err(InvalidArgument::Magnitude); },
        };
        let y: i32 = match self.y.checked_add(down) {
            Some(y) => y,
            None => { return Err(InvalidArgument::Magnitude); },
        };
        let cut_width: u32 = match percent_u32(self.width, out_of_100) {
            Ok(share) => share,
            Err(e) => { return Err(e); },
        };
        let cut_height: u32 = match percent_u32(self.height, out_of_100) {
            Ok(share) => share,
            Err(e) => { return Err(e); },
        };
        Ok(Rect::new(x, y, self.width - cut_width, self.height - cut_height))
    }

    fn shave(&self, percent: Percent, tblr: Side) -> (r: Result<Rect, InvalidArgument>) {
        let out_of_100: Percent = match percent.complement() {
            Ok(rest) => rest,
            Err(e) => { return Err(e); },
        };
        proof {
            lemma_portion_bounds(self.width as int, out_of_100@);
            lemma_portion_bounds(self.height as int, out_of_100@);
        }
        match tblr {
            Side::Top => {
                let down: i32 = match percent_i32(self.height, out_of_100) {
                    Ok(share) => share,
                    Err(e) => { return Err(e); },
                };
                let y: i32 = match self.y.checked_add(down) {
                    Some(y) => y,
                    None => { return Err(InvalidArgument::Magnitude); },
                };
                let cut: u32 = match percent_u32(self.height, out_of_100) {
                    Ok(share) => share,
                    Err(e) => { return Err(e); },
                };
                Ok(Rect::new(self.x, y, self.width, self.height - cut))
            },
            Side::Bot => {
                let cut: u32 = match percent_u32(self.height, out_of_100) {
                    Ok(share) => share,
                    Err(e) => { return Err(e); },
                };
                Ok(Rect::new(self.x, self.y, self.width, self.height - cut))
            },
            Side::Lef => {
                let across: i32 = match percent_i32(self.width, out_of_100) {
                    Ok(share) => share,
                    Err(e) => { return Err(e); },
                };
                let x: i32 = match self.x.checked_add(across) {
                    Some(x) => x,
                    None => { return Err(InvalidArgument::Magnitude); },
                };
                let cut: u32 = match percent_u32(self.width, out_of_100) {
                    Ok(share) => share,
                    Err(e) => { return Err(e); },
                };
                Ok(Rect::new(x, self.y, self.width - cut, self.height))
            },
            Side::Rig => {
                let cut: u32 = match percent_u32(self.width, out_of_100) {
                    Ok(share) => share,
                    Err(e) => { return Err(e); },
                };
                Ok(Rect::new(self.x, self.y, self.width - cut, self.height))
            },
        }
    }

    fn split(&self, percent: Percent, tblr: Side) -> (r: Result<(Rect, Rect), InvalidArgument>) {
        proof {
            lemma_divided_stepwise(self@, percent@, tblr);
        }
        match tblr {
            Side::Top | Side::Bot => {
                let top_box: Rect = match self.shave(percent, Side::Bot) {
                    Ok(piece) => piece,
                    Err(e) => { return Err(e); },
                };
                let rest: Percent = match percent.complement() {
                    Ok(rest) => rest,
                    Err(e) => { return Err(e); },
                };
                let bot_box: Rect = match self.shave(rest, Side::Top) {
                    Ok(piece) => piece,
                    Err(e) => { return Err(e); },
                };
                reconcile_vert(top_box, bot_box)
            },
            Side::Lef | Side::Rig => {
                let lef_box: Rect = match self.shave(percent, Side::Rig) {
                    Ok(piece) => piece,
                    Err(e) => { return Err(e); },
                };
                let rest: Percent = match percent.complement() {
                    Ok(rest) => rest,
                    Err(e) => { return Err(e); },
                };
                let rig_box: Rect = match self.shave(rest, Side::Lef) {
                    Ok(piece) => piece,
                    Err(e) => { return Err(e); },
                };
                reconcile_horz(lef_box, rig_box)
            },
        }
    }
}

} // verus!
