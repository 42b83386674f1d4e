use apa::ApInt;

#[test]
fn convert_primitive() {
    assert_eq!(u8::from(ApInt::from(0u8)), 0u8);
    assert_eq!(i8::from(ApInt::from(0i8)), 0i8);

    assert_eq!(u8::from(ApInt::from(u8::MAX)), u8::MAX);
    assert_eq!(u16::from(ApInt::from(u16::MAX)), u16::MAX);
    assert_eq!(u32::from(ApInt::from(u32::MAX)), u32::MAX);
    assert_eq!(u64::from(ApInt::from(u64::MAX)), u64::MAX);
    assert_eq!(u128::from(ApInt::from(u128::MAX)), u128::MAX);
    assert_eq!(usize::from(ApInt::from(usize::MAX)), usize::MAX);

    assert_eq!(i8::from(ApInt::from(i8::MAX)), i8::MAX);
    assert_eq!(i8::from(ApInt::from(i8::MIN)), i8::MIN);
    assert_eq!(i16::from(ApInt::from(i16::MAX)), i16::MAX);
    assert_eq!(i16::from(ApInt::from(i16::MIN)), i16::MIN);
    assert_eq!(i32::from(ApInt::from(i32::MAX)), i32::MAX);
    assert_eq!(i32::from(ApInt::from(i32::MIN)), i32::MIN);
    assert_eq!(i64::from(ApInt::from(i64::MAX)), i64::MAX);
    assert_eq!(i64::from(ApInt::from(i64::MIN)), i64::MIN);
    assert_eq!(i128::from(ApInt::from(i128::MAX)), i128::MAX);
    assert_eq!(i128::from(ApInt::from(i128::MIN)), i128::MIN);
    assert_eq!(isize::from(ApInt::from(isize::MAX)), isize::MAX);
    assert_eq!(isize::from(ApInt::from(isize::MIN)), isize::MIN);
}

#[test]
fn from_to_u8() {
    assert_eq!(u8::from(ApInt::from(u8::MAX)), u8::MAX);
    assert_eq!(u8::from(ApInt::from(u8::MIN)), u8::MIN);
}

#[test]
fn from_to_u16() {
    assert_eq!(u16::from(ApInt::from(u16::MAX)), u16::MAX);
    assert_eq!(u16::from(ApInt::from(u16::MIN)), u16::MIN);
}

#[test]
fn from_to_u32() {
    assert_eq!(u32::from(ApInt::from(u32::MAX)), u32::MAX);
    assert_eq!(u32::from(ApInt::from(u32::MIN)), u32::MIN);
}

#[test]
fn from_to_u64() {
    assert_eq!(u64::from(ApInt::from(u64::MAX)), u64::MAX);
    assert_eq!(u64::from(ApInt::from(u64::MIN)), u64::MIN);
}

#[test]
fn from_to_u128() {
    assert_eq!(u128::from(ApInt::from(u128::MAX)), u128::MAX);
    assert_eq!(u128::from(ApInt::from(u128::MIN)), u128::MIN);
}

#[test]
fn from_to_usize() {
    assert_eq!(usize::from(ApInt::from(usize::MAX)), usize::MAX);
    assert_eq!(usize::from(ApInt::from(usize::MIN)), usize::MIN);
}

#[test]
fn from_to_i8() {
    assert_eq!(i8::from(ApInt::from(i8::MAX)), i8::MAX);
    assert_eq!(i8::from(ApInt::from(i8::MIN)), i8::MIN);
}

#[test]
fn from_to_i16() {
    assert_eq!(i16::from(ApInt::from(i16::MAX)), i16::MAX);
    assert_eq!(i16::from(ApInt::from(i16::MIN)), i16::MIN);
}

#[test]
fn from_to_i32() {
    assert_eq!(i32::from(ApInt::from(i32::MAX)), i32::MAX);
    assert_eq!(i32::from(ApInt::from(i32::MIN)), i32::MIN);
}

#[test]
fn from_to_i64() {
    assert_eq!(i64::from(ApInt::from(i64::MAX)), i64::MAX);
    assert_eq!(i64::from(ApInt::from(i64::MIN)), i64::MIN);
}

#[test]
fn from_to_i128() {
    assert_eq!(i128::from(ApInt::from(i128::MAX)), i128::MAX);
    assert_eq!(i128::from(ApInt::from(i128::MIN)), i128::MIN);
}

#[test]
fn from_to_isize() {
    assert_eq!(isize::from(ApInt::from(isize::MAX)), isize::MAX);
    assert_eq!(isize::from(ApInt::from(isize::MIN)), isize::MIN);
}

#[test]
fn round_trip_of_values_between_the_bounds() {
    for v in [0u64, 1, 0x7fff_ffff_ffff_ffff, 0x8000_0000_0000_0000, 0xdead_beef_0000_0001] {
        assert_eq!(u64::from(ApInt::from(v)), v);
        assert_eq!(u128::from(ApInt::from(v as u128)), v as u128);
    }
    for v in [
        0u128,
        1 << 63,
        (1 << 64) - 1,
        1 << 64,
        (1 << 127) - 1,
        1 << 127,
        0x0123_4567_89ab_cdef_fedc_ba98_7654_3210,
    ] {
        assert_eq!(u128::from(ApInt::from(v)), v);
    }
    for v in [-1i64, -2, 42, -0x1234_5678_9abc_def0] {
        assert_eq!(i64::from(ApInt::from(v)), v);
    }
    for v in [-1i8, 5, -100] {
        assert_eq!(i8::from(ApInt::from(v)), v);
        assert_eq!(i16::from(ApInt::from(v as i16)), v as i16);
        assert_eq!(i32::from(ApInt::from(v as i32)), v as i32);
        assert_eq!(isize::from(ApInt::from(v as isize)), v as isize);
    }
    for v in [0i128, 1 << 64, (1 << 64) - 1, -(1 << 64) - 1, 1 << 100, -(1 << 100)] {
        assert_eq!(i128::from(ApInt::from(v)), v);
    }
}

#[test]
fn negative_i128_of_one_limb_comes_back_without_its_sign() {
    let int = ApInt::from(-1i128);
    assert_eq!(int.len(), 1);
    assert_eq!(int.limb(0).repr(), u64::MAX);
    assert_eq!(i128::from(int), (1i128 << 64) - 1);

    let int = ApInt::from(-(1i128 << 64));
    assert_eq!(int.len(), 1);
    assert_eq!(i128::from(int), 0);
}

#[test]
fn narrowing_keeps_the_low_bits() {
    let int = ApInt::from(0xaaaa_bbbb_cccc_dddd_1111_2222_3333_44ffu128);
    assert_eq!(int.len(), 3);
    assert_eq!(u8::from(&int), 0xff);
    assert_eq!(u16::from(&int), 0x44ff);
    assert_eq!(u32::from(&int), 0x3333_44ff);
    assert_eq!(u64::from(&int), 0x1111_2222_3333_44ff);
    assert_eq!(usize::from(&int), 0x1111_2222_3333_44ffu64 as usize);
    assert_eq!(u128::from(&int), 0xaaaa_bbbb_cccc_dddd_1111_2222_3333_44ff);
    assert_eq!(i8::from(&int), -1);
    assert_eq!(i16::from(&int), 0x44ff);
    assert_eq!(i32::from(&int), 0x3333_44ff);
    assert_eq!(i64::from(&int), 0x1111_2222_3333_44ff);
    assert_eq!(i128::from(&int), 0xaaaa_bbbb_cccc_dddd_1111_2222_3333_44ffu128 as i128);

    let int = ApInt::from((7u128 << 64) | 0xff);
    assert_eq!(int.len(), 2);
    assert_eq!(u8::from(int), 0xff);
}

#[test]
fn signed_values_are_held_in_twos_complement() {
    let int = ApInt::from(-128i8);
    assert_eq!(int.len(), 1);
    assert_eq!(int.limb(0).repr(), 0xffff_ffff_ffff_ff80);

    let int = ApInt::from(-1i64);
    assert_eq!(int.len(), 1);
    assert_eq!(int.limb(0).repr(), u64::MAX);

    let int = ApInt::from(i128::MIN);
    assert_eq!(int.len(), 2);
    assert_eq!(int.word(0).repr(), 0);
    assert_eq!(int.word(1).repr(), 0x8000_0000_0000_0000);

    let int = ApInt::from(i128::MAX);
    assert_eq!(int.len(), 2);
    assert_eq!(int.word(0).repr(), u64::MAX);
    assert_eq!(int.word(1).repr(), 0x7fff_ffff_ffff_ffff);

    let int = ApInt::from((1i128 << 64) - 1);
    assert_eq!(int.len(), 1);
    let int = ApInt::from(1i128 << 64);
    assert_eq!(int.len(), 2);
    let int = ApInt::from(-(1i128 << 64) - 1);
    assert_eq!(int.len(), 2);
    assert_eq!(int.word(0).repr(), u64::MAX);
    assert_eq!(int.word(1).repr(), 0xffff_ffff_ffff_fffe);
}
