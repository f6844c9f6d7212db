use radix_common::math::CheckedAdd;
use radix_common::math::CheckedSub;
use radix_common::math::Decimal as NativeDecimal;
use radix_common::math::I192;
use radix_engine_toolkit::decimal::Decimal;

fn from_native(value: NativeDecimal) -> Decimal {
    Decimal::from_digits(value.attos().to_digits())
}

fn to_native(value: Decimal) -> NativeDecimal {
    NativeDecimal::from_attos(I192::from_digits(value.to_digits()))
}

#[test]
fn zero_has_zero_digits() {
    assert_eq!(Decimal::zero(), Decimal { lo: 0, mid: 0, hi: 0 });
    assert!(Decimal::zero().is_zero());
    assert!(!Decimal::zero().is_negative());
    assert_eq!(to_native(Decimal::zero()), NativeDecimal::ZERO);
}

#[test]
fn from_attos_is_twos_complement() {
    assert_eq!(Decimal::from_attos(5), Decimal { lo: 5, mid: 0, hi: 0 });
    assert_eq!(
        Decimal::from_attos(-1),
        Decimal { lo: u64::MAX, mid: u64::MAX, hi: u64::MAX }
    );
    assert_eq!(
        Decimal::from_attos(i64::MIN),
        Decimal { lo: 0x8000_0000_0000_0000, mid: u64::MAX, hi: u64::MAX }
    );
    assert_eq!(to_native(Decimal::from_attos(-1)), NativeDecimal::ZERO.checked_sub(NativeDecimal::ONE_ATTO).unwrap());
    assert_eq!(to_native(Decimal::from_attos(7)), NativeDecimal::from_attos(I192::from(7u32)));
}

#[test]
fn digits_round_trip() {
    let d = Decimal::from_digits([1, 2, 3]);
    assert_eq!(d, Decimal { lo: 1, mid: 2, hi: 3 });
    assert_eq!(d.to_digits(), [1, 2, 3]);
}

#[test]
fn one_is_ten_to_the_eighteen_attos() {
    assert_eq!(from_native(NativeDecimal::ONE), Decimal::from_attos(1_000_000_000_000_000_000));
}

#[test]
fn checked_add_adds_exactly() {
    let a = Decimal::from_attos(10);
    let b = Decimal::from_attos(32);
    assert_eq!(a.checked_add(&b), Some(Decimal::from_attos(42)));
    // A sum is neither of its arguments.
    assert_ne!(a.checked_add(&b), Some(a));
    assert_ne!(a.checked_add(&b), Some(b));
}

#[test]
fn checked_add_carries_between_digits() {
    let a = Decimal { lo: u64::MAX, mid: 0, hi: 0 };
    let one = Decimal::from_attos(1);
    assert_eq!(a.checked_add(&one), Some(Decimal { lo: 0, mid: 1, hi: 0 }));
    let b = Decimal { lo: u64::MAX, mid: u64::MAX, hi: 0 };
    assert_eq!(b.checked_add(&one), Some(Decimal { lo: 0, mid: 0, hi: 1 }));
}

#[test]
fn checked_add_of_negative_amounts() {
    let a = Decimal::from_attos(-5);
    let b = Decimal::from_attos(3);
    assert_eq!(a.checked_add(&b), Some(Decimal::from_attos(-2)));
    assert_eq!(a.checked_add(&Decimal::from_attos(5)), Some(Decimal::zero()));
}

#[test]
fn checked_add_gives_none_on_overflow() {
    let max = from_native(NativeDecimal::MAX);
    assert_eq!(max, Decimal { lo: u64::MAX, mid: u64::MAX, hi: 0x7fff_ffff_ffff_ffff });
    assert_eq!(max.checked_add(&Decimal::from_attos(1)), None);
    assert_eq!(max.checked_add(&Decimal::zero()), Some(max));
    let min = from_native(NativeDecimal::MIN);
    assert_eq!(min, Decimal { lo: 0, mid: 0, hi: 0x8000_0000_0000_0000 });
    assert_eq!(min.checked_add(&Decimal::from_attos(-1)), None);
}

#[test]
fn checked_sub_subtracts_exactly() {
    let a = Decimal::from_attos(10);
    let b = Decimal::from_attos(3);
    assert_eq!(a.checked_sub(&b), Some(Decimal::from_attos(7)));
    assert_eq!(b.checked_sub(&a), Some(Decimal::from_attos(-7)));
    assert_ne!(a.checked_sub(&b), Some(a));
}

#[test]
fn checked_sub_borrows_between_digits() {
    let a = Decimal { lo: 0, mid: 1, hi: 0 };
    assert_eq!(
        a.checked_sub(&Decimal::from_attos(1)),
        Some(Decimal { lo: u64::MAX, mid: 0, hi: 0 })
    );
}

#[test]
fn checked_sub_gives_none_on_overflow() {
    let min = from_native(NativeDecimal::MIN);
    assert_eq!(min.checked_sub(&Decimal::from_attos(1)), None);
    let max = from_native(NativeDecimal::MAX);
    assert_eq!(max.checked_sub(&Decimal::from_attos(-1)), None);
    assert_eq!(Decimal::zero().checked_sub(&min), None);
}

#[test]
fn le_orders_by_value() {
    let minus_one = Decimal::from_attos(-1);
    let zero = Decimal::zero();
    let one = Decimal::from_attos(1);
    let big = Decimal { lo: 0, mid: 0, hi: 1 };
    assert!(minus_one.le(&zero));
    assert!(zero.le(&one));
    assert!(one.le(&big));
    assert!(one.le(&one));
    assert!(!zero.le(&minus_one));
    assert!(!one.le(&zero));
    assert!(!big.le(&one));
    // The digits of -1 are the greatest, its value is not.
    assert!(minus_one.le(&big));
}

#[test]
fn sign_and_zero_tests() {
    assert!(Decimal::from_attos(-1).is_negative());
    assert!(from_native(NativeDecimal::MIN).is_negative());
    assert!(!from_native(NativeDecimal::MAX).is_negative());
    assert!(!Decimal::from_attos(1).is_zero());
    assert!(!Decimal { lo: 0, mid: 1, hi: 0 }.is_zero());
    assert!(!Decimal { lo: 0, mid: 0, hi: 1 }.is_zero());
}

#[test]
fn arithmetic_agrees_with_the_native_decimal() {
    let values = [
        NativeDecimal::ZERO,
        NativeDecimal::ONE,
        NativeDecimal::ONE_HUNDRED,
        NativeDecimal::MAX,
        NativeDecimal::MIN,
        NativeDecimal::from(123456789u64),
        NativeDecimal::from(-42i32),
    ];
    for x in values {
        for y in values {
            let (a, b) = (from_native(x), from_native(y));
            assert_eq!(a.checked_add(&b).map(to_native), x.checked_add(y));
            assert_eq!(a.checked_sub(&b).map(to_native), x.checked_sub(y));
            assert_eq!(a.le(&b), x <= y);
        }
    }
}
