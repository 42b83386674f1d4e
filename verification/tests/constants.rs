use apa::ApInt;

#[test]
fn zero() {
    assert_eq!(0, usize::from(ApInt::zero()));
}

#[test]
fn one() {
    assert_eq!(1, usize::from(ApInt::one()));
}

#[test]
fn zero_converts_to_every_type_as_zero() {
    assert_eq!(u8::from(ApInt::zero()), 0);
    assert_eq!(u16::from(ApInt::zero()), 0);
    assert_eq!(u32::from(ApInt::zero()), 0);
    assert_eq!(u64::from(ApInt::zero()), 0);
    assert_eq!(u128::from(ApInt::zero()), 0);
    assert_eq!(usize::from(ApInt::zero()), 0);
    assert_eq!(i8::from(ApInt::zero()), 0);
    assert_eq!(i16::from(ApInt::zero()), 0);
    assert_eq!(i32::from(ApInt::zero()), 0);
    assert_eq!(i64::from(ApInt::zero()), 0);
    assert_eq!(i128::from(ApInt::zero()), 0);
    assert_eq!(isize::from(ApInt::zero()), 0);
    assert_eq!(ApInt::zero().len(), 1);
}

#[test]
fn one_converts_to_every_type_as_one() {
    assert_eq!(u8::from(ApInt::one()), 1);
    assert_eq!(u16::from(ApInt::one()), 1);
    assert_eq!(u32::from(ApInt::one()), 1);
    assert_eq!(u64::from(ApInt::one()), 1);
    assert_eq!(u128::from(ApInt::one()), 1);
    assert_eq!(usize::from(ApInt::one()), 1);
    assert_eq!(i8::from(ApInt::one()), 1);
    assert_eq!(i16::from(ApInt::one()), 1);
    assert_eq!(i32::from(ApInt::one()), 1);
    assert_eq!(i64::from(ApInt::one()), 1);
    assert_eq!(i128::from(ApInt::one()), 1);
    assert_eq!(isize::from(ApInt::one()), 1);
    assert_eq!(ApInt::one().len(), 1);
}
