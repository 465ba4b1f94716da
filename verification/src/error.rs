use vstd::prelude::*;

verus! {

/// The single way in which an operation of this crate fails: an argument it
/// was given cannot be worked with. The variant says which one.
#[derive(Clone, Copy, Debug, PartialEq, Eq, Structural)]
pub enum InvalidArgument {
    /// A percentage lies outside `(0, 100]`, either as it was passed or once
    /// it has been taken from one hundred.
    Percent,
    /// A width or height, or an edge placed by means of one, cannot be
    /// represented as a signed 32-bit coordinate.
    Magnitude,
}

impl InvalidArgument {
    /// The text of the message that `message` hands out.
    pub open spec fn text(self) -> Seq<char> {
        match self {
            InvalidArgument::Percent => "Invalid percent passed as an argument."@,
            InvalidArgument::Magnitude => "Magnitude too large to convert from u32 to i32"@,
        }
    }

    /// A description of the failure for people to read.
    pub fn message(&self) -> (m: &'static str)
        ensures
            m@ == self.text(),
    {
        match self {
            InvalidArgument::Percent => "Invalid percent passed as an argument.",
            InvalidArgument::Magnitude => "Magnitude too large to convert from u32 to i32",
        }
    }
}

} // verus!
