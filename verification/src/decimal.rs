//! Fixed-point amounts of fungible resources.
//!
//! An amount is a signed 192-bit count of `10^-18` subunits ("attos"). The
//! value is held as its three 64-bit digits in two's complement, least
//! significant first, which is the layout `radix_common::math::I192` takes and
//! gives. Arithmetic and ordering are done by `radix_common::math::Decimal`.

use radix_common::math::CheckedAdd;
use radix_common::math::CheckedSub;
use vstd::prelude::*;

verus! {

/// `2^64`.
pub open spec fn pow2_64() -> int {
    0x1_0000_0000_0000_0000int
}

/// `2^128`.
pub open spec fn pow2_128() -> int {
    0x1_0000_0000_0000_0000_0000_0000_0000_0000int
}

/// `2^192`.
pub open spec fn pow2_192() -> int {
    0x1_0000_0000_0000_0000_0000_0000_0000_0000_0000_0000_0000_0000int
}

/// The least number of attos an amount can hold: `-2^191`.
pub open spec fn min_attos() -> int {
    -0x8000_0000_0000_0000_0000_0000_0000_0000_0000_0000_0000_0000int
}

/// The greatest number of attos an amount can hold: `2^191 - 1`.
pub open spec fn max_attos() -> int {
    0x7fff_ffff_ffff_ffff_ffff_ffff_ffff_ffff_ffff_ffff_ffff_ffffint
}

/// Whether a number of attos fits in an amount.
pub open spec fn representable(attos: int) -> bool {
    min_attos() <= attos <= max_attos()
}

/// A decimal amount with 18 fractional digits.
#[derive(Clone, Copy, Debug, PartialEq, Eq, Structural, Hash)]
pub struct Decimal {
    /// Bits 0 to 63 of the attos.
    pub lo: u64,
    /// Bits 64 to 127 of the attos.
    pub mid: u64,
    /// Bits 128 to 191 of the attos; its top bit is the sign.
    pub hi: u64,
}

impl Decimal {
    /// The number of attos this amount stands for.
    pub open spec fn attos(self) -> int {
        let raw = self.lo as int + self.mid as int * pow2_64() + self.hi as int * pow2_128();
        if self.hi >= 0x8000_0000_0000_0000u64 {
            raw - pow2_192()
        } else {
            raw
        }
    }

    /// The amount zero.
    pub fn zero() -> (d: Decimal)
        ensures
            d.attos() == 0,
    {
        Decimal { lo: 0, mid: 0, hi: 0 }
    }

    /// The amount with the given digits, least significant first.
    pub fn from_digits(digits: [u64; 3]) -> (d: Decimal)
        ensures
            d.lo == digits@[0],
            d.mid == digits@[1],
            d.hi == digits@[2],
    {
        Decimal { lo: digits[0], mid: digits[1], hi: digits[2] }
    }

    /// The digits of the amount, least significant first.
    pub fn to_digits(&self) -> (digits: [u64; 3])
        ensures
            digits@ == seq![self.lo, self.mid, self.hi],
    {
        let digits: [u64; 3] = [self.lo, self.mid, self.hi];
        assert(digits@ =~= seq![self.lo, self.mid, self.hi]);
        digits
    }

    /// The amount of `attos` subunits.
    pub fn from_attos(attos: i64) -> (d: Decimal)
        ensures
            d.attos() == attos,
    {
        if attos >= 0 {
            Decimal { lo: attos as u64, mid: 0, hi: 0 }
        } else {
            let lo: u64 = attos as u64;
            assert(lo as int == attos as int + pow2_64()) by (bit_vector)
                requires
                    attos < 0,
                    lo == attos as u64,
            ;
            Decimal { lo, mid: u64::MAX, hi: u64::MAX }
        }
    }

    /// Whether the amount is zero.
    pub fn is_zero(&self) -> (zero: bool)
        ensures
            zero == (self.attos() == 0),
    {
        self.lo == 0 && self.mid == 0 && self.hi == 0
    }

    /// Whether the amount is below zero.
    pub fn is_negative(&self) -> (negative: bool)
        ensures
            negative == (self.attos() < 0),
    {
        self.hi >= 0x8000_0000_0000_0000u64
    }

    /// The sum of two amounts, or `None` where it does not fit.
    pub fn checked_add(&self, other: &Decimal) -> (sum: Option<Decimal>)
        ensures
            sum is Some <==> representable(self.attos() + other.attos()),
            sum matches Some(s) ==> s.attos() == self.attos() + other.attos(),
    {
        native_checked_add(self, other)
    }

    /// The difference of two amounts, or `None` where it does not fit.
    pub fn checked_sub(&self, other: &Decimal) -> (difference: Option<Decimal>)
        ensures
            difference is Some <==> representable(self.attos() - other.attos()),
            difference matches Some(d) ==> d.attos() == self.attos() - other.attos(),
    {
        native_checked_sub(self, other)
    }

    /// Whether this amount is at most `other`.
    pub fn le(&self, other: &Decimal) -> (holds: bool)
        ensures
            holds == (self.attos() <= other.attos()),
    {
        native_le(self, other)
    }
}

/// Two amounts of the same number of attos have the same digits.
pub proof fn lemma_attos_injective(a: Decimal, b: Decimal)
    requires
        a.attos() == b.attos(),
    ensures
        a == b,
{
    let sa: int = if a.hi >= 0x8000_0000_0000_0000u64 { 1 } else { 0 };
    let sb: int = if b.hi >= 0x8000_0000_0000_0000u64 { 1 } else { 0 };
    assert(a.hi == b.hi && a.mid == b.mid && a.lo == b.lo) by (nonlinear_arith)
        requires
            a.lo as int + a.mid as int * 0x1_0000_0000_0000_0000int + a.hi as int
                * 0x1_0000_0000_0000_0000_0000_0000_0000_0000int - sa
                * 0x1_0000_0000_0000_0000_0000_0000_0000_0000_0000_0000_0000_0000int == b.lo as int
                + b.mid as int * 0x1_0000_0000_0000_0000int + b.hi as int
                * 0x1_0000_0000_0000_0000_0000_0000_0000_0000int - sb
                * 0x1_0000_0000_0000_0000_0000_0000_0000_0000_0000_0000_0000_0000int,
            sa == 1 <==> a.hi >= 0x8000_0000_0000_0000u64,
            sb == 1 <==> b.hi >= 0x8000_0000_0000_0000u64,
            sa == 0 || sa == 1,
            sb == 0 || sb == 1,
            0 <= a.lo < 0x1_0000_0000_0000_0000int,
            0 <= b.lo < 0x1_0000_0000_0000_0000int,
            0 <= a.mid < 0x1_0000_0000_0000_0000int,
            0 <= b.mid < 0x1_0000_0000_0000_0000int,
            0 <= a.hi < 0x1_0000_0000_0000_0000int,
            0 <= b.hi < 0x1_0000_0000_0000_0000int,
    ;
}

/// Calls `radix_common::math::Decimal::checked_add` on the two amounts,
/// rebuilt from their digits with `I192::from_digits`, and takes the digits of
/// the sum with `I192::to_digits`. The contract claims that the call adds the
/// two signed 192-bit integers exactly and gives `None` where the sum is
/// outside the 192-bit range.
#[verifier::external_body]
fn native_checked_add(a: &Decimal, b: &Decimal) -> (sum: Option<Decimal>)
    ensures
        sum is Some <==> representable(a.attos() + b.attos()),
        sum matches Some(s) ==> s.attos() == a.attos() + b.attos(),
{
    let x = radix_common::math::Decimal::from_attos(
        radix_common::math::I192::from_digits([a.lo, a.mid, a.hi]),
    );
    let y = radix_common::math::Decimal::from_attos(
        radix_common::math::I192::from_digits([b.lo, b.mid, b.hi]),
    );
    match x.checked_add(y) {
        Some(s) => {
            let d = s.attos().to_digits();
            Some(Decimal { lo: d[0], mid: d[1], hi: d[2] })
        },
        None => None,
    }
}

/// Calls `radix_common::math::Decimal::checked_sub` on the two amounts,
/// rebuilt from their digits with `I192::from_digits`, and takes the digits of
/// the difference with `I192::to_digits`. The contract claims that the call
/// subtracts the two signed 192-bit integers exactly and gives `None` where
/// the difference is outside the 192-bit range.
#[verifier::external_body]
fn native_checked_sub(a: &Decimal, b: &Decimal) -> (difference: Option<Decimal>)
    ensures
        difference is Some <==> representable(a.attos() - b.attos()),
        difference matches Some(d) ==> d.attos() == a.attos() - b.attos(),
{
    let x = radix_common::math::Decimal::from_attos(
        radix_common::math::I192::from_digits([a.lo, a.mid, a.hi]),
    );
    let y = radix_common::math::Decimal::from_attos(
        radix_common::math::I192::from_digits([b.lo, b.mid, b.hi]),
    );
    match x.checked_sub(y) {
        Some(s) => {
            let d = s.attos().to_digits();
            Some(Decimal { lo: d[0], mid: d[1], hi: d[2] })
        },
        None => None,
    }
}

/// Compares the two amounts with the `<=` of `radix_common::math::Decimal`,
/// each rebuilt from its digits with `I192::from_digits`. The contract claims
/// that this is the order of the signed 192-bit integers.
#[verifier::external_body]
fn native_le(a: &Decimal, b: &Decimal) -> (holds: bool)
    ensures
        holds == (a.attos() <= b.attos()),
{
    let x = radix_common::math::Decimal::from_attos(
        radix_common::math::I192::from_digits([a.lo, a.mid, a.hi]),
    );
    let y = radix_common::math::Decimal::from_attos(
        radix_common::math::I192::from_digits([b.lo, b.mid, b.hi]),
    );
    x <= y
}

} // verus!
