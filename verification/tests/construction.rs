use ascending_range::{AscendingRange, InvalidRange, NegativeAscendingRange, PositiveAscendingRange};
use std::convert::TryFrom;

#[test]
fn it_works() {
    let result = 2 + 2;
    assert_eq!(result, 4);
}

#[test]
fn positive_accepts_ascending_from_zero_up() {
    for (s, e) in [(0i32, 0i32), (0, 1), (2, 10), (7, 7), (1, i32::MAX), (i32::MAX, i32::MAX)] {
        let r = PositiveAscendingRange::try_from(s..e).unwrap();
        assert_eq!(*r.start(), s);
        assert_eq!(*r.end(), e);
    }
}

#[test]
fn positive_refuses_negative_start() {
    for (s, e) in [(-1i32, 0i32), (-5, -1), (-3, 4), (i32::MIN, i32::MAX), (-1, -1)] {
        assert_eq!(
            PositiveAscendingRange::try_from(s..e),
            Err(InvalidRange::StartLessThanZero)
        );
    }
}

#[test]
fn positive_refuses_descending_whatever_the_sign() {
    for (s, e) in [(5i32, 2i32), (-1, -5), (1, 0), (0, -1), (3, -3), (i32::MAX, i32::MIN)] {
        assert_eq!(
            PositiveAscendingRange::try_from(s..e),
            Err(InvalidRange::StartAfterEnd)
        );
    }
}

#[test]
fn positive_zero_boundary_on_i64() {
    assert!(PositiveAscendingRange::try_from(0i64..5i64).is_ok());
    assert_eq!(
        PositiveAscendingRange::try_from(-1i64..5i64),
        Err(InvalidRange::StartLessThanZero)
    );
}

#[test]
fn negative_accepts_ascending_up_to_zero() {
    for (s, e) in [(0i32, 0i32), (-1, 0), (-10, -2), (-7, -7), (i32::MIN, -1), (i32::MIN, i32::MIN)] {
        let r = NegativeAscendingRange::try_from(s..e).unwrap();
        assert_eq!(*r.start(), s);
        assert_eq!(*r.end(), e);
    }
}

#[test]
fn negative_refuses_positive_end() {
    for (s, e) in [(0i32, 1i32), (1, 5), (-3, 4), (i32::MIN, i32::MAX), (1, 1)] {
        assert_eq!(
            NegativeAscendingRange::try_from(s..e),
            Err(InvalidRange::EndGreaterThanZero)
        );
    }
}

#[test]
fn negative_refuses_descending_whatever_the_sign() {
    for (s, e) in [(5i32, 2i32), (-1, -5), (1, 0), (0, -1), (3, -3)] {
        assert_eq!(
            NegativeAscendingRange::try_from(s..e),
            Err(InvalidRange::StartAfterEnd)
        );
    }
}

#[test]
fn negative_zero_boundary_on_i64() {
    assert!(NegativeAscendingRange::try_from(-5i64..0i64).is_ok());
    assert_eq!(
        NegativeAscendingRange::try_from(-5i64..1i64),
        Err(InvalidRange::EndGreaterThanZero)
    );
}

#[test]
fn ascending_has_no_sign_constraint() {
    for (s, e) in [(-5i32, -1i32), (-3, 4), (2, 9)] {
        let r = AscendingRange::try_from(s..e).unwrap();
        assert_eq!(*r.start(), s);
        assert_eq!(*r.end(), e);
    }
    assert_eq!(AscendingRange::try_from(5i32..2i32), Err(InvalidRange::StartAfterEnd));
}

#[test]
fn ascending_accepts_empty_range() {
    let r = AscendingRange::try_from(3i64..3i64).unwrap();
    assert_eq!(*r.start(), 3);
    assert_eq!(*r.end(), 3);
}

#[test]
fn wrappers_read_as_plain_ranges() {
    let p = PositiveAscendingRange::try_from(2i32..10i32).unwrap();
    assert_eq!(*p, 2..10);
    assert_eq!(p.start, 2);
    assert_eq!(p.end, 10);
    let n = NegativeAscendingRange::try_from(-10i32..-2i32).unwrap();
    assert_eq!(*n, -10..-2);
    let a = AscendingRange::try_from(-3i32..4i32).unwrap();
    assert_eq!(*a, -3..4);
}

#[test]
fn equality_and_clone_are_structural() {
    let p = PositiveAscendingRange::try_from(2i32..10i32).unwrap();
    let q = p.clone();
    assert_eq!(p, q);
    assert_ne!(p, PositiveAscendingRange::try_from(2i32..11i32).unwrap());
    let n = NegativeAscendingRange::try_from(-10i32..-2i32).unwrap();
    assert_eq!(n.clone(), n);
    assert_ne!(n, NegativeAscendingRange::try_from(-9i32..-2i32).unwrap());
    let a = AscendingRange::try_from(-3i32..4i32).unwrap();
    assert_eq!(a.clone(), a);
    assert_eq!(format!("{:?}", a), "AscendingRange { range: -3..4 }");
}

#[test]
fn error_messages() {
    assert_eq!(
        InvalidRange::StartAfterEnd.message(),
        "The start of the given range is greater than the end of the given range"
    );
    assert_eq!(
        InvalidRange::StartLessThanZero.message(),
        "The start of the given range is less than zero"
    );
    assert_eq!(
        InvalidRange::EndGreaterThanZero.message(),
        "The end of the given range is greater than zero"
    );
    assert_eq!(
        InvalidRange::SetStartInvalid.message(),
        "The new start is greater than the end or breaks the sign constraint"
    );
    assert_eq!(
        InvalidRange::SetEndInvalid.message(),
        "The new end is less than the start or breaks the sign constraint"
    );
}

#[test]
fn zero_boundary_on_each_signed_type() {
    assert!(PositiveAscendingRange::try_from(0i8..1i8).is_ok());
    assert_eq!(PositiveAscendingRange::try_from(-1i8..1i8), Err(InvalidRange::StartLessThanZero));
    assert!(NegativeAscendingRange::try_from(-1i8..0i8).is_ok());
    assert_eq!(NegativeAscendingRange::try_from(-1i8..1i8), Err(InvalidRange::EndGreaterThanZero));
    assert!(PositiveAscendingRange::try_from(0i16..1i16).is_ok());
    assert_eq!(PositiveAscendingRange::try_from(-1i16..1i16), Err(InvalidRange::StartLessThanZero));
    assert!(NegativeAscendingRange::try_from(-1i16..0i16).is_ok());
    assert_eq!(NegativeAscendingRange::try_from(-1i16..1i16), Err(InvalidRange::EndGreaterThanZero));
    assert!(PositiveAscendingRange::try_from(0i128..1i128).is_ok());
    assert_eq!(PositiveAscendingRange::try_from(-1i128..1i128), Err(InvalidRange::StartLessThanZero));
    assert!(NegativeAscendingRange::try_from(-1i128..0i128).is_ok());
    assert_eq!(NegativeAscendingRange::try_from(-1i128..1i128), Err(InvalidRange::EndGreaterThanZero));
    assert!(PositiveAscendingRange::try_from(0isize..1isize).is_ok());
    assert_eq!(PositiveAscendingRange::try_from(-1isize..1isize), Err(InvalidRange::StartLessThanZero));
    assert!(NegativeAscendingRange::try_from(-1isize..0isize).is_ok());
    assert_eq!(NegativeAscendingRange::try_from(-1isize..1isize), Err(InvalidRange::EndGreaterThanZero));
}

#[test]
fn unsigned_bounds() {
    let mut p = PositiveAscendingRange::try_from(0usize..4usize).unwrap();
    assert_eq!(p.set_start(0), Err(InvalidRange::SetStartInvalid));
    assert_eq!(p.set_start(1), Ok(0));
    assert_eq!(*p, 1..4);
    assert_eq!(PositiveAscendingRange::try_from(4u8..3u8), Err(InvalidRange::StartAfterEnd));
    assert!(PositiveAscendingRange::try_from(0u16..0u16).is_ok());
    assert!(PositiveAscendingRange::try_from(7u128..9u128).is_ok());
    assert!(NegativeAscendingRange::try_from(0u32..0u32).is_ok());
    assert_eq!(NegativeAscendingRange::try_from(0u32..1u32), Err(InvalidRange::EndGreaterThanZero));
    let mut n = NegativeAscendingRange::try_from(0u64..0u64).unwrap();
    assert_eq!(n.set_end(0), Err(InvalidRange::SetEndInvalid));
    assert_eq!(n.set_start(0), Ok(0));
    assert!(AscendingRange::try_from(3u64..8u64).is_ok());
}
