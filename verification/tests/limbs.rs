use apa::convert::{leading_zeros_wide, sign_run};
use apa::{ApInt, ApIntStorage, Limb, LimbRepr, WordOrder};

/// Holds the limbs of `int` against `limbs`, given least significant first:
/// by significance, and at the index that the order of the machine gives.
fn assert_words(int: &ApInt, limbs: &[LimbRepr]) {
    assert_eq!(int.len(), limbs.len());
    for i in 0..limbs.len() {
        assert_eq!(int.word(i).repr(), limbs[i]);
        let index = int.word_order().slot(limbs.len(), i);
        assert_eq!(int.limb(index).repr(), limbs[i]);
    }
}

#[test]
fn from_u_0() {
    assert_words(&ApInt::from(0u8), &[0]);
    assert_words(&ApInt::from(0u16), &[0]);
    assert_words(&ApInt::from(0u32), &[0]);
    assert_words(&ApInt::from(0u64), &[0]);
    assert_words(&ApInt::from(0u128), &[0]);
    assert_words(&ApInt::from(0usize), &[0]);
}

#[test]
fn from_u8_max() {
    const MAX: LimbRepr = u8::MAX as LimbRepr;

    assert_words(&ApInt::from(u8::MAX), &[MAX]);
    assert_words(&ApInt::from(u8::MAX as u16), &[MAX]);
    assert_words(&ApInt::from(u8::MAX as u32), &[MAX]);
    assert_words(&ApInt::from(u8::MAX as u64), &[MAX]);
    assert_words(&ApInt::from(u8::MAX as u128), &[MAX]);
    assert_words(&ApInt::from(u8::MAX as usize), &[MAX]);
}

#[test]
fn from_u16_max() {
    const MAX: LimbRepr = u16::MAX as LimbRepr;

    assert_words(&ApInt::from(u16::MAX), &[MAX]);
    assert_words(&ApInt::from(u16::MAX as u32), &[MAX]);
    assert_words(&ApInt::from(u16::MAX as u64), &[MAX]);
    assert_words(&ApInt::from(u16::MAX as u128), &[MAX]);
    assert_words(&ApInt::from(u16::MAX as usize), &[MAX]);
}

#[test]
fn from_u32_max() {
    const MAX: LimbRepr = u32::MAX as LimbRepr;

    assert_words(&ApInt::from(u32::MAX), &[MAX]);
    assert_words(&ApInt::from(u32::MAX as u64), &[MAX]);
    assert_words(&ApInt::from(u32::MAX as u128), &[MAX]);
    assert_words(&ApInt::from(u32::MAX as usize), &[MAX]);
}

#[test]
fn from_u64_max() {
    assert_words(&ApInt::from(u64::MAX), &[LimbRepr::MAX, 0]);
    assert_words(&ApInt::from(u64::MAX as u128), &[LimbRepr::MAX, 0]);
    assert_words(&ApInt::from(u64::MAX as usize), &[LimbRepr::MAX, 0]);
}

#[test]
fn from_u128_max() {
    assert_words(&ApInt::from(u128::MAX), &[LimbRepr::MAX, LimbRepr::MAX, 0]);
}

#[test]
fn from_usize_max() {
    assert_words(&ApInt::from(usize::MAX as u64), &[LimbRepr::MAX, 0]);
    assert_words(&ApInt::from(usize::MAX as u128), &[LimbRepr::MAX, 0]);
    assert_words(&ApInt::from(usize::MAX), &[LimbRepr::MAX, 0]);
}

#[test]
fn word_count_is_the_least_that_holds_the_bits() {
    assert_eq!(ApInt::from(u32::MAX).len(), 1);
    assert_eq!(ApInt::from((1u64 << 63) - 1).len(), 1);
    assert_eq!(ApInt::from(1u64 << 63).len(), 2);
    assert_eq!(ApInt::from((1u128 << 63) - 1).len(), 1);
    assert_eq!(ApInt::from(1u128 << 63).len(), 2);
    assert_eq!(ApInt::from((1u128 << 127) - 1).len(), 2);
    assert_eq!(ApInt::from(1u128 << 127).len(), 3);
    assert_eq!(ApInt::from(i64::MIN).len(), 1);
    assert_eq!(ApInt::from(i128::MIN).len(), 2);
}

#[test]
fn limbs_lie_in_the_order_asked_for() {
    let value: u128 = (0xbbu128 << 64) | 0xaa | (1 << 127);

    let int = ApInt::from_unsigned_in(value, WordOrder::LeastFirst);
    assert_eq!(int.len(), 3);
    assert_eq!(int.limb(0).repr(), 0xaa);
    assert_eq!(int.limb(1).repr(), 0x8000_0000_0000_00bb);
    assert_eq!(int.limb(2).repr(), 0);
    assert_eq!(u128::from(&int), value);
    assert_eq!(u8::from(&int), 0xaa);

    let int = ApInt::from_unsigned_in(value, WordOrder::MostFirst);
    assert_eq!(int.len(), 3);
    assert_eq!(int.limb(0).repr(), 0);
    assert_eq!(int.limb(1).repr(), 0x8000_0000_0000_00bb);
    assert_eq!(int.limb(2).repr(), 0xaa);
    assert_eq!(int.word(0).repr(), 0xaa);
    assert_eq!(u128::from(&int), value);
    assert_eq!(u8::from(&int), 0xaa);

    let int = ApInt::from_word_in(u64::MAX, WordOrder::MostFirst);
    assert_eq!(int.len(), 2);
    assert_eq!(int.limb(0).repr(), 0);
    assert_eq!(int.limb(1).repr(), u64::MAX);
    assert_eq!(u64::from(&int), u64::MAX);

    let int = ApInt::from_word_in(u64::MAX, WordOrder::LeastFirst);
    assert_eq!(int.limb(0).repr(), u64::MAX);
    assert_eq!(int.limb(1).repr(), 0);

    let int = ApInt::from_signed_in(i128::MIN, WordOrder::MostFirst);
    assert_eq!(int.limb(0).repr(), 0x8000_0000_0000_0000);
    assert_eq!(int.limb(1).repr(), 0);
    assert_eq!(i128::from(&int), i128::MIN);
    assert_eq!(int.word_order(), WordOrder::MostFirst);
}

#[test]
fn native_order_follows_the_bytes_of_the_machine() {
    assert_eq!(WordOrder::from_native_bytes([1, 0]), WordOrder::LeastFirst);
    assert_eq!(WordOrder::from_native_bytes([0, 1]), WordOrder::MostFirst);
    assert_eq!(WordOrder::native(), WordOrder::from_native_bytes(1u16.to_ne_bytes()));
    assert_eq!(WordOrder::LeastFirst.slot(3, 0), 0);
    assert_eq!(WordOrder::MostFirst.slot(3, 0), 2);
    assert_eq!(WordOrder::MostFirst.slot(3, 2), 0);
}

#[test]
fn storage_is_inline_exactly_for_one_limb() {
    let int = ApInt::from_limb(Limb(7));
    assert_eq!(int.len(), 1);
    assert!(matches!(int.storage(), ApIntStorage::Stack(Limb(7))));
    assert_eq!(int.limb(0), Limb(7));

    let int = ApInt::with_capacity(4, WordOrder::LeastFirst);
    assert_eq!(int.len(), 4);
    match int.storage() {
        ApIntStorage::Stack(_) => panic!("a value of four limbs is not inline"),
        ApIntStorage::Heap(buf) => {
            assert_eq!(buf.len(), 4);
            assert!(buf.iter().all(|limb| limb.repr() == 0));
        }
    }

    let int = ApInt::from(u64::MAX);
    assert!(matches!(int.storage(), ApIntStorage::Heap(_)));
    let int = ApInt::from(u32::MAX);
    assert!(matches!(int.storage(), ApIntStorage::Stack(_)));
}

#[test]
fn set_limb_overwrites_one_limb() {
    let mut int = ApInt::with_capacity(3, WordOrder::LeastFirst);
    int.set_limb(1, Limb(9));
    assert_eq!(int.len(), 3);
    assert_eq!(int.limb(0).repr(), 0);
    assert_eq!(int.limb(1).repr(), 9);
    assert_eq!(int.limb(2).repr(), 0);

    let mut int = ApInt::zero();
    int.set_limb(0, Limb(5));
    assert_eq!(int.len(), 1);
    assert_eq!(u8::from(int), 5);

    let mut int = ApInt::with_capacity(2, WordOrder::MostFirst);
    int.fill_low(0x1_0000_0000_0000_0002, 2);
    assert_eq!(int.limb(0).repr(), 1);
    assert_eq!(int.limb(1).repr(), 2);
    assert_eq!(int.low_words(1), 2);
    assert_eq!(int.low_words(2), 0x1_0000_0000_0000_0002);
    assert_eq!(int.low_word(), 2);
}

#[test]
fn limb_arithmetic_reports_overflow() {
    assert_eq!(Limb(1).add_overflow(Limb(2)), (Limb(3), false));
    assert_eq!(Limb::ones().add_overflow(Limb::one()), (Limb::zero(), true));
    assert_eq!(Limb::ones().add_overflow(Limb::ones()), (Limb(u64::MAX - 1), true));
    assert_eq!(Limb(5).sub_overflow(Limb(3)), (Limb(2), false));
    assert_eq!(Limb(3).sub_overflow(Limb(3)), (Limb(0), false));
    assert_eq!(Limb::zero().sub_overflow(Limb::one()), (Limb::ones(), true));
    assert_eq!(Limb(3).sub_overflow(Limb(5)), (Limb(u64::MAX - 1), true));
}

#[test]
fn limb_counts_its_zero_bits() {
    assert_eq!(Limb::zero().leading_zeros(), 64);
    assert_eq!(Limb::zero().trailing_zeros(), 64);
    assert_eq!(Limb::one().leading_zeros(), 63);
    assert_eq!(Limb::one().trailing_zeros(), 0);
    assert_eq!(Limb::ones().leading_zeros(), 0);
    assert_eq!(Limb(0x10).trailing_zeros(), 4);
    assert_eq!(Limb(0x10).leading_zeros(), 59);
    assert_eq!(Limb(0x10).repr(), 0x10);
    assert_eq!(Limb::BITS, 64);
    assert_eq!(Limb::SIZE, 8);
}

#[test]
fn wide_bit_counts() {
    assert_eq!(leading_zeros_wide(0), 128);
    assert_eq!(leading_zeros_wide(1), 127);
    assert_eq!(leading_zeros_wide(1 << 64), 63);
    assert_eq!(leading_zeros_wide(u128::MAX), 0);
    assert_eq!(leading_zeros_wide(0x1234), 0x1234u128.leading_zeros());
    assert_eq!(sign_run(0), 128);
    assert_eq!(sign_run(-1), 128);
    assert_eq!(sign_run(127), 121);
    assert_eq!(sign_run(-128), 121);
    assert_eq!(sign_run(i128::MIN), 1);
    assert_eq!(sign_run(i128::MAX), 1);
    let v: i128 = -0x1234_5678;
    assert_eq!(sign_run(v), v.leading_zeros() + v.leading_ones());
}
