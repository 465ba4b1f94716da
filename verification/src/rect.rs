use crate::error::InvalidArgument;
use vstd::prelude::*;

verus! {

/// Whether an integer is a value of `i32`.
pub open spec fn fits_i32(v: int) -> bool {
    i32::MIN <= v <= i32::MAX
}

/// A rectangle as mathematics sees it: a corner and an extent over the
/// unbounded integers. It is the view of a `Rect`, and the contracts of this
/// crate are stated over it.
pub struct Region {
    pub x: int,
    pub y: int,
    pub width: int,
    pub height: int,
}

impl Region {
    /// The coordinate just past the right edge.
    pub open spec fn right(self) -> int {
        self.x + self.width
    }

    /// The coordinate just past the bottom edge.
    pub open spec fn bottom(self) -> int {
        self.y + self.height
    }

    /// Whether both extents are lengths, and they and all four edges are
    /// held by `i32`.
    pub open spec fn within_i32(self) -> bool {
        &&& 0 <= self.width <= i32::MAX
        &&& 0 <= self.height <= i32::MAX
        &&& i32::MIN <= self.x
        &&& i32::MIN <= self.y
        &&& self.right() <= i32::MAX
        &&& self.bottom() <= i32::MAX
    }

    /// Whether `inner` lies within `self`: on no side does it reach beyond it.
    pub open spec fn encloses(self, inner: Region) -> bool {
        &&& self.x <= inner.x
        &&& self.y <= inner.y
        &&& inner.right() <= self.right()
        &&& inner.bottom() <= self.bottom()
    }
}

/// An axis-aligned rectangle on the pixel grid: the top-left corner, which
/// may be negative, and an unsigned width and height.
#[derive(Clone, Copy, Debug, PartialEq, Eq, Structural)]
pub struct Rect {
    pub x: i32,
    pub y: i32,
    pub width: u32,
    pub height: u32,
}

impl View for Rect {
    type V = Region;

    open spec fn view(&self) -> Region {
        Region {
            x: self.x as int,
            y: self.y as int,
            width: self.width as int,
            height: self.height as int,
        }
    }
}

impl Rect {
    /// The rectangle with its corner at `(x, y)` and the given extent.
    pub fn new(x: i32, y: i32, width: u32, height: u32) -> (r: Rect)
        ensures
            r == (Rect { x, y, width, height }),
    {
        Rect { x, y, width, height }
    }
}

/// The outcome of an operation with the rectangle it gives replaced by its
/// view.
pub open spec fn lifted(r: Result<Rect, InvalidArgument>) -> Result<Region, InvalidArgument> {
    match r {
        Ok(rect) => Ok(rect@),
        Err(e) => Err(e),
    }
}

/// The outcome of an operation with the two rectangles it gives replaced by
/// their views.
pub open spec fn lifted_pair(r: Result<(Rect, Rect), InvalidArgument>) -> Result<
    (Region, Region),
    InvalidArgument,
> {
    match r {
        Ok((first, second)) => Ok((first@, second@)),
        Err(e) => Err(e),
    }
}

/// An edge of a rectangle: top, bottom, left or right.
#[derive(Clone, Copy, Debug, PartialEq, Eq, Structural)]
pub enum Side {
    Top,
    Bot,
    Lef,
    Rig,
}

impl Side {
    /// Whether the edge bounds the rectangle along the vertical axis, as the
    /// top and the bottom do.
    pub open spec fn is_vertical(self) -> bool {
        self == Side::Top || self == Side::Bot
    }
}

} // verus!
