use crate::error::InvalidArgument;
use vstd::prelude::*;

verus! {

/// Fixed-point units that make up one percent.
pub const UNITS_PER_PERCENT: i64 = 100_000;

/// Fixed-point units that make up the whole, one hundred percent.
pub const UNITS_PER_WHOLE: i64 = 10_000_000;

/// A percentage in fixed point, counted in hundred-thousandths of a percent.
///
/// Any count can be held, also a negative one or one above the whole: it is
/// the operations that refuse what lies outside `(0, 100]`.
#[derive(Clone, Copy, Debug, PartialEq, Eq, Structural)]
pub struct Percent {
    pub scaled: i64,
}

impl View for Percent {
    type V = int;

    /// The percentage as its count of fixed-point units.
    open spec fn view(&self) -> int {
        self.scaled as int
    }
}

/// Whether a count of units is a percentage in `(0, 100]`.
pub open spec fn accepted(scaled: int) -> bool {
    0 < scaled <= UNITS_PER_WHOLE
}

/// What is left of the whole once `scaled` units are taken from it.
pub open spec fn complement(scaled: int) -> int {
    UNITS_PER_WHOLE - scaled
}

/// The share of `whole` that `scaled` units stand for, rounded down:
/// `floor(whole * percent / 100)`.
pub open spec fn portion(whole: int, scaled: int) -> int {
    (whole * scaled) / (UNITS_PER_WHOLE as int)
}

/// A share of a non-negative extent is non-negative and no larger than the
/// extent, and the product it is computed from stays below `whole` wholes.
pub proof fn lemma_portion_bounds(whole: int, scaled: int)
    requires
        0 <= whole,
        0 <= scaled <= UNITS_PER_WHOLE,
    ensures
        0 <= whole * scaled <= whole * UNITS_PER_WHOLE,
        0 <= portion(whole, scaled) <= whole,
{
    let full: int = UNITS_PER_WHOLE as int;
    assert(0 <= whole * scaled <= whole * full) by (nonlinear_arith)
        requires
            0 <= whole,
            0 <= scaled <= full,
    ;
    assert(0 <= (whole * scaled) / full <= whole) by (nonlinear_arith)
        requires
            0 <= whole * scaled <= whole * full,
            full > 0,
    ;
}

/// The shares that a percentage and its complement take of one extent,
/// each rounded down, make up the extent or fall one short of it.
pub proof fn lemma_portions_nearly_cover(whole: int, scaled: int)
    requires
        0 <= whole,
        0 <= scaled <= UNITS_PER_WHOLE,
    ensures
        whole - 1 <= portion(whole, scaled) + portion(whole, complement(scaled)) <= whole,
{
    let full: int = UNITS_PER_WHOLE as int;
    let taken: int = whole * scaled;
    let left: int = whole * (full - scaled);
    assert(taken + left == whole * full) by (nonlinear_arith)
        requires
            taken == whole * scaled,
            left == whole * (full - scaled),
    ;
    vstd::arithmetic::div_mod::lemma_fundamental_div_mod(taken, full);
    vstd::arithmetic::div_mod::lemma_fundamental_div_mod(left, full);
    vstd::arithmetic::div_mod::lemma_mod_bound(taken, full);
    vstd::arithmetic::div_mod::lemma_mod_bound(left, full);
}

impl Percent {
    /// The percentage that counts `scaled` fixed-point units.
    pub fn from_scaled(scaled: i64) -> (p: Percent)
        ensures
            p@ == scaled,
    {
        Percent { scaled }
    }

    /// The percentage of `percent` whole percent.
    pub fn from_whole(percent: i32) -> (p: Percent)
        ensures
            p@ == percent * UNITS_PER_PERCENT,
    {
        Percent { scaled: (percent as i64) * UNITS_PER_PERCENT }
    }

    /// One hundred percent less `self`, where that is again a percentage in
    /// `(0, 100]`; otherwise the percentage is refused.
    pub fn complement(self) -> (r: Result<Percent, InvalidArgument>)
        ensures
            match r {
                Ok(q) => accepted(complement(self@)) && q@ == complement(self@),
                Err(e) => !accepted(complement(self@)) && e == InvalidArgument::Percent,
            },
    {
        if 0 <= self.scaled && self.scaled < UNITS_PER_WHOLE {
            Ok(Percent { scaled: UNITS_PER_WHOLE - self.scaled })
        } else {
            Err(InvalidArgument::Percent)
        }
    }
}

/// The share of `whole` that `percent` stands for, rounded down.
///
/// Fails exactly when `percent` lies outside `(0, 100]`; zero percent is
/// refused too.
pub fn percent_u32(whole: u32, percent: Percent) -> (r: Result<u32, InvalidArgument>)
    ensures
        match r {
            Ok(share) => accepted(percent@) && share == portion(whole as int, percent@),
            Err(e) => !accepted(percent@) && e == InvalidArgument::Percent,
        },
{
    if 0 < percent.scaled && percent.scaled <= UNITS_PER_WHOLE {
        proof {
            lemma_portion_bounds(whole as int, percent@);
        }
        let product: u64 = (whole as u64) * (percent.scaled as u64);
        let share: u64 = product / (UNITS_PER_WHOLE as u64);
        Ok(share as u32)
    } else {
        Err(InvalidArgument::Percent)
    }
}

/// The share of `whole` that `percent` stands for, as a signed offset.
///
/// Fails on a percentage outside `(0, 100]`, and otherwise exactly when the
/// share is larger than any `i32`.
pub fn percent_i32(whole: u32, percent: Percent) -> (r: Result<i32, InvalidArgument>)
    ensures
        match r {
            Ok(share) => {
                &&& accepted(percent@)
                &&& portion(whole as int, percent@) <= i32::MAX
                &&& share == portion(whole as int, percent@)
            },
            Err(e) => if accepted(percent@) {
                portion(whole as int, percent@) > i32::MAX && e == InvalidArgument::Magnitude
            } else {
                e == InvalidArgument::Percent
            },
        },
{
    match percent_u32(whole, percent) {
        Ok(share) => {
            if share <= i32::MAX as u32 {
                Ok(share as i32)
            } else {
                Err(InvalidArgument::Magnitude)
            }
        },
        Err(e) => Err(e),
    }
}

/// Half of the signed share, rounded down: the offset that centres what is
/// left once the share is taken away.
///
/// Fails as `percent_i32` does.
pub fn half_percent_i32(whole: u32, percent: Percent) -> (r: Result<i32, InvalidArgument>)
    ensures
        match r {
            Ok(half) => {
                &&& accepted(percent@)
                &&& portion(whole as int, percent@) <= i32::MAX
                &&& half == portion(whole as int, percent@) / 2
            },
            Err(e) => if accepted(percent@) {
                portion(whole as int, percent@) > i32::MAX && e == InvalidArgument::Magnitude
            } else {
                e == InvalidArgument::Percent
            },
        },
{
    match percent_i32(whole, percent) {
        Ok(share) => {
            proof {
                lemma_portion_bounds(whole as int, percent@);
            }
            Ok(share / 2)
        },
        Err(e) => Err(e),
    }
}

} // verus!
