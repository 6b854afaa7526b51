//! Why a range was refused.

use vstd::prelude::*;

verus! {

/// The reason a range could not be built or changed.
#[derive(Debug, Clone, Copy, PartialEq, Eq, Structural, Hash)]
pub enum InvalidRange {
    /// The given range has `start > end`.
    StartAfterEnd,
    /// The given range is ascending but `start < 0`.
    StartLessThanZero,
    /// The given range is ascending but `end > 0`.
    EndGreaterThanZero,
    /// The new start would break the order or the sign constraint.
    SetStartInvalid,
    /// The new end would break the order or the sign constraint.
    SetEndInvalid,
}

impl InvalidRange {
    /// The text that describes each reason.
    pub open spec fn message_spec(self) -> Seq<char> {
        match self {
            InvalidRange::StartAfterEnd =>
                "The start of the given range is greater than the end of the given range"@,
            InvalidRange::StartLessThanZero =>
                "The start of the given range is less than zero"@,
            InvalidRange::EndGreaterThanZero =>
                "The end of the given range is greater than zero"@,
            InvalidRange::SetStartInvalid =>
                "The new start is greater than the end or breaks the sign constraint"@,
            InvalidRange::SetEndInvalid =>
                "The new end is less than the start or breaks the sign constraint"@,
        }
    }

    /// A description of the reason, for display.
    pub fn message(&self) -> (s: &'static str)
        ensures
            s@ == self.message_spec(),
    {
        match self {
            InvalidRange::StartAfterEnd =>
                "The start of the given range is greater than the end of the given range",
            InvalidRange::StartLessThanZero =>
                "The start of the given range is less than zero",
            InvalidRange::EndGreaterThanZero =>
                "The end of the given range is greater than zero",
            InvalidRange::SetStartInvalid =>
                "The new start is greater than the end or breaks the sign constraint",
            InvalidRange::SetEndInvalid =>
                "The new end is less than the start or breaks the sign constraint",
        }
    }
}

} // verus!
