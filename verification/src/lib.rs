//! Percentage-based partitioning of axis-aligned rectangles on an integer
//! pixel grid: centring, shaving one edge, and splitting into two pieces that
//! touch exactly.
//!
//! Percentages are held in fixed point, so that every result is an exact
//! integer quotient rounded down. Each operation is a function of its
//! arguments alone, fails only with `InvalidArgument`, and says in its
//! contract which rectangle it gives and when it fails. What holds of the
//! operations together is proved in `laws`.

/// Centring, shaving and splitting, as a trait and on `Rect`.
pub mod container;
/// The one kind of failure.
pub mod error;
/// What holds of the operations, proved from their models.
pub mod laws;
/// Fixed-point percentages and the share of an extent that one stands for.
pub mod percent;
/// The gap between two pieces, and making them touch.
pub mod reconcile;
/// Rectangles, their mathematical view, and the sides of one.
pub mod rect;

pub use container::Container;
pub use error::InvalidArgument;
pub use percent::{
    half_percent_i32, percent_i32, percent_u32, Percent, UNITS_PER_PERCENT, UNITS_PER_WHOLE,
};
pub use reconcile::{horz_diff, reconcile_horz, reconcile_vert, vert_diff};
pub use rect::{Rect, Region, Side};
