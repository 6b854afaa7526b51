//! Validated half-open ranges `[start, end)`.
//!
//! Three wrappers around `core::ops::Range` keep an ordering invariant, and two
//! of them a sign invariant as well:
//!
//! * [`AscendingRange`]: `start <= end`;
//! * [`PositiveAscendingRange`]: `start <= end` and `start >= 0`;
//! * [`NegativeAscendingRange`]: `start <= end` and `end <= 0`.
//!
//! Each is built by a validating `try_from` and changed only through setters
//! that validate again. [`RangeExt`] adds the relations `covers` and
//! `intersects` to plain ranges.

pub mod scalar;
pub mod error;
pub mod relation;
pub mod positive;
pub mod negative;
pub mod ascending;

pub use ascending::AscendingRange;
pub use error::InvalidRange;
pub use negative::NegativeAscendingRange;
pub use positive::PositiveAscendingRange;
pub use relation::RangeExt;
pub use scalar::Scalar;
