use apa::{BitWidth, One, Zero};

#[test]
fn integers_have_their_identities() {
    assert_eq!(<u8 as Zero>::ZERO, 0);
    assert_eq!(<u128 as Zero>::ZERO, 0);
    assert_eq!(<i64 as Zero>::ZERO, 0);
    assert_eq!(<isize as Zero>::ZERO, 0);
    assert_eq!(<u8 as One>::ONE, 1);
    assert_eq!(<usize as One>::ONE, 1);
    assert_eq!(<i128 as One>::ONE, 1);
    assert!(0u32.is_zero());
    assert!(!1u32.is_zero());
    assert!(0i16.is_zero());
    assert!(!(-1i16).is_zero());
    assert_eq!(5u64 + <u64 as Zero>::ZERO, 5);
    assert_eq!(5u64 * <u64 as One>::ONE, 5);
}

#[test]
fn bit_widths_have_their_values() {
    assert_eq!(BitWidth::w1().get(), 1);
    assert_eq!(BitWidth::w8().get(), 8);
    assert_eq!(BitWidth::w16().get(), 16);
    assert_eq!(BitWidth::w32().get(), 32);
    assert_eq!(BitWidth::w64().get(), 64);
    assert_eq!(BitWidth::w128().get(), 128);
    assert!(BitWidth::w8() < BitWidth::w16());
    assert_eq!(BitWidth::w32(), BitWidth::w32());
}
