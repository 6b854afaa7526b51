//! The bound type of a range: an ordered type with a zero.
//!
//! The zero of each primitive integer type is taken from `num::Zero`.

use vstd::prelude::*;

verus! {

/// A type whose values stand for integers, ordered as those integers are, with
/// a value that stands for zero. It is implemented for the primitive integer
/// types.
pub trait Scalar: Copy + Sized {
    /// The integer that this value stands for.
    spec fn value(&self) -> int;

    /// The value that stands for zero.
    fn zero() -> (z: Self)
        ensures
            z.value() == 0,
    ;

    /// `self <= other`, as integers.
    fn le(&self, other: &Self) -> (b: bool)
        ensures
            b == (self.value() <= other.value()),
    ;

    /// `self < other`, as integers.
    fn lt(&self, other: &Self) -> (b: bool)
        ensures
            b == (self.value() < other.value()),
    ;
}

/// Calls `<i8 as num::Zero>::zero`, which num-traits defines as the literal
/// `0`.
#[verifier::external_body]
fn zero_i8() -> (z: i8)
    ensures
        z == 0,
{
    num::Zero::zero()
}

/// Calls `<i16 as num::Zero>::zero`, which num-traits defines as the literal
/// `0`.
#[verifier::external_body]
fn zero_i16() -> (z: i16)
    ensures
        z == 0,
{
    num::Zero::zero()
}

/// Calls `<i32 as num::Zero>::zero`, which num-traits defines as the literal
/// `0`.
#[verifier::external_body]
fn zero_i32() -> (z: i32)
    ensures
        z == 0,
{
    num::Zero::zero()
}

/// Calls `<i64 as num::Zero>::zero`, which num-traits defines as the literal
/// `0`.
#[verifier::external_body]
fn zero_i64() -> (z: i64)
    ensures
        z == 0,
{
    num::Zero::zero()
}

/// Calls `<i128 as num::Zero>::zero`, which num-traits defines as the literal
/// `0`.
#[verifier::external_body]
fn zero_i128() -> (z: i128)
    ensures
        z == 0,
{
    num::Zero::zero()
}

/// Calls `<isize as num::Zero>::zero`, which num-traits defines as the literal
/// `0`.
#[verifier::external_body]
fn zero_isize() -> (z: isize)
    ensures
        z == 0,
{
    num::Zero::zero()
}

/// Calls `<u8 as num::Zero>::zero`, which num-traits defines as the literal
/// `0`.
#[verifier::external_body]
fn zero_u8() -> (z: u8)
    ensures
        z == 0,
{
    num::Zero::zero()
}

/// Calls `<u16 as num::Zero>::zero`, which num-traits defines as the literal
/// `0`.
#[verifier::external_body]
fn zero_u16() -> (z: u16)
    ensures
        z == 0,
{
    num::Zero::zero()
}

/// Calls `<u32 as num::Zero>::zero`, which num-traits defines as the literal
/// `0`.
#[verifier::external_body]
fn zero_u32() -> (z: u32)
    ensures
        z == 0,
{
    num::Zero::zero()
}

/// Calls `<u64 as num::Zero>::zero`, which num-traits defines as the literal
/// `0`.
#[verifier::external_body]
fn zero_u64() -> (z: u64)
    ensures
        z == 0,
{
    num::Zero::zero()
}

/// Calls `<u128 as num::Zero>::zero`, which num-traits defines as the literal
/// `0`.
#[verifier::external_body]
fn zero_u128() -> (z: u128)
    ensures
        z == 0,
{
    num::Zero::zero()
}

/// Calls `<usize as num::Zero>::zero`, which num-traits defines as the literal
/// `0`.
#[verifier::external_body]
fn zero_usize() -> (z: usize)
    ensures
        z == 0,
{
    num::Zero::zero()
}

impl Scalar for i8 {
    open spec fn value(&self) -> int {
        *self as int
    }

    fn zero() -> (z: i8) {
        zero_i8()
    }

    fn le(&self, other: &i8) -> (b: bool) {
        *self <= *other
    }

    fn lt(&self, other: &i8) -> (b: bool) {
        *self < *other
    }
}

impl Scalar for i16 {
    open spec fn value(&self) -> int {
        *self as int
    }

    fn zero() -> (z: i16) {
        zero_i16()
    }

    fn le(&self, other: &i16) -> (b: bool) {
        *self <= *other
    }

    fn lt(&self, other: &i16) -> (b: bool) {
        *self < *other
    }
}

impl Scalar for i32 {
    open spec fn value(&self) -> int {
        *self as int
    }

    fn zero() -> (z: i32) {
        zero_i32()
    }

    fn le(&self, other: &i32) -> (b: bool) {
        *self <= *other
    }

    fn lt(&self, other: &i32) -> (b: bool) {
        *self < *other
    }
}

impl Scalar for i64 {
    open spec fn value(&self) -> int {
        *self as int
    }

    fn zero() -> (z: i64) {
        zero_i64()
    }

    fn le(&self, other: &i64) -> (b: bool) {
        *self <= *other
    }

    fn lt(&self, other: &i64) -> (b: bool) {
        *self < *other
    }
}

impl Scalar for i128 {
    open spec fn value(&self) -> int {
        *self as int
    }

    fn zero() -> (z: i128) {
        zero_i128()
    }

    fn le(&self, other: &i128) -> (b: bool) {
        *self <= *other
    }

    fn lt(&self, other: &i128) -> (b: bool) {
        *self < *other
    }
}

impl Scalar for isize {
    open spec fn value(&self) -> int {
        *self as int
    }

    fn zero() -> (z: isize) {
        zero_isize()
    }

    fn le(&self, other: &isize) -> (b: bool) {
        *self <= *other
    }

    fn lt(&self, other: &isize) -> (b: bool) {
        *self < *other
    }
}

impl Scalar for u8 {
    open spec fn value(&self) -> int {
        *self as int
    }

    fn zero() -> (z: u8) {
        zero_u8()
    }

    fn le(&self, other: &u8) -> (b: bool) {
        *self <= *other
    }

    fn lt(&self, other: &u8) -> (b: bool) {
        *self < *other
    }
}

impl Scalar for u16 {
    open spec fn value(&self) -> int {
        *self as int
    }

    fn zero() -> (z: u16) {
        zero_u16()
    }

    fn le(&self, other: &u16) -> (b: bool) {
        *self <= *other
    }

    fn lt(&self, other: &u16) -> (b: bool) {
        *self < *other
    }
}

impl Scalar for u32 {
    open spec fn value(&self) -> int {
        *self as int
    }

    fn zero() -> (z: u32) {
        zero_u32()
    }

    fn le(&self, other: &u32) -> (b: bool) {
        *self <= *other
    }

    fn lt(&self, other: &u32) -> (b: bool) {
        *self < *other
    }
}

impl Scalar for u64 {
    open spec fn value(&self) -> int {
        *self as int
    }

    fn zero() -> (z: u64) {
        zero_u64()
    }

    fn le(&self, other: &u64) -> (b: bool) {
        *self <= *other
    }

    fn lt(&self, other: &u64) -> (b: bool) {
        *self < *other
    }
}

impl Scalar for u128 {
    open spec fn value(&self) -> int {
        *self as int
    }

    fn zero() -> (z: u128) {
        zero_u128()
    }

    fn le(&self, other: &u128) -> (b: bool) {
        *self <= *other
    }

    fn lt(&self, other: &u128) -> (b: bool) {
        *self < *other
    }
}

impl Scalar for usize {
    open spec fn value(&self) -> int {
        *self as int
    }

    fn zero() -> (z: usize) {
        zero_usize()
    }

    fn le(&self, other: &usize) -> (b: bool) {
        *self <= *other
    }

    fn lt(&self, other: &usize) -> (b: bool) {
        *self < *other
    }
}

} // verus!
