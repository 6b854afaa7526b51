//! Predicates on ranges and the relations between two of them.

use core::ops::Range;
use vstd::prelude::*;
use crate::scalar::Scalar;

verus! {

/// `start <= end`.
pub open spec fn ascending<T: Scalar>(r: Range<T>) -> bool {
    r.start.value() <= r.end.value()
}

/// `start >= 0`.
pub open spec fn starts_non_negative<T: Scalar>(r: Range<T>) -> bool {
    r.start.value() >= 0
}

/// `end <= 0`.
pub open spec fn ends_non_positive<T: Scalar>(r: Range<T>) -> bool {
    r.end.value() <= 0
}

/// Relations between two half-open ranges.
pub trait RangeExt {
    /// What `covers` returns.
    spec fn covers_spec(&self, other: &Self) -> bool;

    /// What `intersects` returns.
    spec fn intersects_spec(&self, other: &Self) -> bool;

    /// `self` covers `other`.
    fn covers(&self, other: &Self) -> (b: bool)
        ensures
            b == self.covers_spec(other),
    ;

    /// `self` intersects `other`.
    fn intersects(&self, other: &Self) -> (b: bool)
        ensures
            b == self.intersects_spec(other),
    ;
}

impl<T: Scalar> RangeExt for Range<T> {
    /// `self.start <= other.start` and `self.end >= other.end`.
    open spec fn covers_spec(&self, other: &Self) -> bool {
        self.start.value() <= other.start.value() && self.end.value() >= other.end.value()
    }

    /// `self.start <= other.end` and `self.end <= other.start`. This is not the
    /// symmetric overlap test: the second comparison holds `self.end` against
    /// `other.start`, so the relation is not commutative.
    open spec fn intersects_spec(&self, other: &Self) -> bool {
        self.start.value() <= other.end.value() && self.end.value() <= other.start.value()
    }

    fn covers(&self, other: &Self) -> (b: bool) {
        self.start.le(&other.start) && other.end.le(&self.end)
    }

    fn intersects(&self, other: &Self) -> (b: bool) {
        self.start.le(&other.end) && self.end.le(&other.start)
    }
}

/// Every range covers itself.
pub proof fn lemma_covers_reflexive<T: Scalar>(a: Range<T>)
    ensures
        a.covers_spec(&a),
{
}

/// Between two ascending ranges the first comparison of `intersects` follows
/// from the second: `a` intersects `b` exactly when `a` ends at or before the
/// start of `b`.
pub proof fn lemma_intersects_ascending<T: Scalar>(a: Range<T>, b: Range<T>)
    requires
        ascending(a),
        ascending(b),
    ensures
        a.intersects_spec(&b) <==> a.end.value() <= b.start.value(),
{
}

} // verus!
