//! Ascending ranges of either sign.

use core::convert::TryFrom;
use core::ops::{Deref, Range};
use vstd::prelude::*;
use vstd::std_specs::convert::TryFromSpecImpl;
use crate::error::InvalidRange;
use crate::relation::ascending;
use crate::scalar::Scalar;

verus! {

/// An ascending range from `start` to `end` (exclusive).
#[derive(Debug, PartialEq, Eq, Hash)]
pub struct AscendingRange<T: Scalar> {
    range: Range<T>,
}

impl<T: Scalar> View for AscendingRange<T> {
    type V = Range<T>;

    /// The range that is held.
    closed spec fn view(&self) -> Range<T> {
        self.range
    }
}

impl<T: Scalar> Deref for AscendingRange<T> {
    type Target = Range<T>;

    /// The range that is held, to read.
    fn deref(&self) -> (r: &Range<T>)
        ensures
            *r == self@,
            ascending(self@),
    {
        proof {
            use_type_invariant(self);
        }
        &self.range
    }
}

impl<T: Scalar> Clone for AscendingRange<T> {
    fn clone(&self) -> (c: Self)
        ensures
            c == *self,
    {
        proof {
            use_type_invariant(self);
        }
        AscendingRange { range: Range { start: self.range.start, end: self.range.end } }
    }
}

impl<T: Scalar> TryFromSpecImpl<Range<T>> for AscendingRange<T> {
    open spec fn obeys_try_from_spec() -> bool {
        true
    }

    closed spec fn try_from_spec(r: Range<T>) -> Result<Self, InvalidRange> {
        if !ascending(r) {
            Err(InvalidRange::StartAfterEnd)
        } else {
            Ok(AscendingRange { range: r })
        }
    }
}

impl<T: Scalar> TryFrom<Range<T>> for AscendingRange<T> {
    type Error = InvalidRange;

    /// Wraps `r` if it is ascending.
    fn try_from(r: Range<T>) -> (ret: Result<Self, InvalidRange>)
        ensures
            ascending(r) ==> (ret matches Ok(p) && p@ == r),
            !ascending(r) ==> ret == Err::<Self, InvalidRange>(InvalidRange::StartAfterEnd),
    {
        if !r.start.le(&r.end) {
            Err(InvalidRange::StartAfterEnd)
        } else {
            Ok(AscendingRange { range: r })
        }
    }
}

impl<T: Scalar> AscendingRange<T> {
    /// What holds of every value: the range ascends.
    #[verifier::type_invariant]
    pub closed spec fn inv(&self) -> bool {
        ascending(self.range)
    }

    /// The inclusive lower bound.
    pub fn start(&self) -> (s: &T)
        ensures
            *s == self@.start,
            ascending(self@),
    {
        proof {
            use_type_invariant(self);
        }
        &self.range.start
    }

    /// The exclusive upper bound.
    pub fn end(&self) -> (e: &T)
        ensures
            *e == self@.end,
            ascending(self@),
    {
        proof {
            use_type_invariant(self);
        }
        &self.range.end
    }

    /// Whether `x` may become the start of `r`: it is at most the end.
    pub open spec fn start_accepted(r: Range<T>, x: T) -> bool {
        x.value() <= r.end.value()
    }

    /// Whether `x` may become the end of `r`: it is at least the start.
    pub open spec fn end_accepted(r: Range<T>, x: T) -> bool {
        x.value() >= r.start.value()
    }

    /// Replaces the start by `x` and returns the previous start, if `x` is at
    /// most the end. Otherwise the range stays as it is.
    pub fn set_start(&mut self, x: T) -> (ret: Result<T, InvalidRange>)
        ensures
            Self::start_accepted(old(self)@, x) ==> ret == Ok::<T, InvalidRange>(old(self)@.start)
                && final(self)@ == (Range { start: x, end: old(self)@.end }),
            !Self::start_accepted(old(self)@, x) ==> ret == Err::<T, InvalidRange>(
                InvalidRange::SetStartInvalid,
            ) && *final(self) == *old(self),
    {
        if x.le(&self.range.end) {
            let previous = self.range.start;
            self.range.start = x;
            Ok(previous)
        } else {
            Err(InvalidRange::SetStartInvalid)
        }
    }

    /// Replaces the end by `x` and returns the previous end, if `x` is at
    /// least the start. Otherwise the range stays as it is.
    pub fn set_end(&mut self, x: T) -> (ret: Result<T, InvalidRange>)
        ensures
            Self::end_accepted(old(self)@, x) ==> ret == Ok::<T, InvalidRange>(old(self)@.end)
                && final(self)@ == (Range { start: old(self)@.start, end: x }),
            !Self::end_accepted(old(self)@, x) ==> ret == Err::<T, InvalidRange>(
                InvalidRange::SetEndInvalid,
            ) && *final(self) == *old(self),
    {
        if self.range.start.le(&x) {
            let previous = self.range.end;
            self.range.end = x;
            Ok(previous)
        } else {
            Err(InvalidRange::SetEndInvalid)
        }
    }
}

} // verus!
