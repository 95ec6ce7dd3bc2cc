//! Decimal amounts of money.
//!
//! An [`Amount`] is a signed integer mantissa with a decimal scale: the
//! value it stands for is `mantissa / 10^scale`. Sums of whole days and
//! prices stay exact in this form; quotients are computed by the
//! `rust_decimal` crate, which rounds to at most 28 decimal places.

use vstd::prelude::*;

verus! {

/// Largest magnitude of a mantissa: 96 bits.
pub const MAX_MANTISSA: i128 = 0xFFFF_FFFF_FFFF_FFFF_FFFF_FFFF;

/// Largest scale: 28 decimal places.
pub const MAX_SCALE: u32 = 28;

/// A decimal number `mantissa / 10^scale`.
#[derive(Clone, Copy, Debug, PartialEq, Eq, Structural)]
pub struct Amount {
    pub mantissa: i128,
    pub scale: u32,
}

impl Amount {
    /// Whether the mantissa fits in 96 bits and the scale is at most 28.
    pub open spec fn wf(self) -> bool {
        &&& -0xFFFF_FFFF_FFFF_FFFF_FFFF_FFFF <= self.mantissa <= 0xFFFF_FFFF_FFFF_FFFF_FFFF_FFFF
        &&& self.scale <= 28
    }

    /// The amount `num / 10^scale`.
    pub fn new(num: i64, scale: u32) -> (a: Amount)
        ensures
            a.mantissa == num,
            a.scale == scale,
            scale <= 28 ==> a.wf(),
    {
        Amount { mantissa: num as i128, scale }
    }

    /// The whole number `n`.
    pub fn from_whole(n: i64) -> (a: Amount)
        ensures
            a == (Amount { mantissa: n as i128, scale: 0 }),
            a.wf(),
    {
        Amount { mantissa: n as i128, scale: 0 }
    }

    pub fn zero() -> (a: Amount)
        ensures
            a == (Amount { mantissa: 0, scale: 0 }),
            a.wf(),
    {
        Amount { mantissa: 0, scale: 0 }
    }

    /// Whether the amount is below zero.
    pub fn is_negative(&self) -> (b: bool)
        ensures
            b == (self.mantissa < 0),
    {
        self.mantissa < 0
    }

    pub fn is_zero(&self) -> (b: bool)
        ensures
            b == (self.mantissa == 0),
    {
        self.mantissa == 0
    }

    /// Run-time form of [`Amount::wf`].
    pub fn is_well_formed(&self) -> (b: bool)
        ensures
            b == self.wf(),
    {
        -MAX_MANTISSA <= self.mantissa && self.mantissa <= MAX_MANTISSA && self.scale <= MAX_SCALE
    }
}

/// What `rust_decimal` returns for `a / b`: `None` for a divisor of zero,
/// for an operand that is not well formed, and for a quotient out of range.
pub uninterp spec fn decimal_quotient(a: Amount, b: Amount) -> Option<Amount>;

/// What `rust_decimal` returns for `a * b`: `None` for an operand that is not
/// well formed and for a product out of range.
pub uninterp spec fn decimal_product(a: Amount, b: Amount) -> Option<Amount>;

/// What `rust_decimal` returns for `a - b`: `None` for an operand that is not
/// well formed and for a difference out of range.
pub uninterp spec fn decimal_difference(a: Amount, b: Amount) -> Option<Amount>;

/// Divides with `rust_decimal::Decimal::checked_div`. The operands are
/// rebuilt with `Decimal::try_from_i128_with_scale`, which refuses a mantissa
/// beyond 96 bits and a scale beyond 28; the quotient is read back with
/// `Decimal::mantissa` and `Decimal::scale`, whose ranges are those of
/// [`Amount::wf`]. The quotient itself is only named.
#[verifier::external_body]
pub(crate) fn decimal_div(a: Amount, b: Amount) -> (q: Option<Amount>)
    ensures
        q == decimal_quotient(a, b),
        q matches Some(v) ==> v.wf(),
{
    let x = rust_decimal::Decimal::try_from_i128_with_scale(a.mantissa, a.scale).ok()?;
    let y = rust_decimal::Decimal::try_from_i128_with_scale(b.mantissa, b.scale).ok()?;
    let r = x.checked_div(y)?;
    Some(Amount { mantissa: r.mantissa(), scale: r.scale() })
}

/// Multiplies with `rust_decimal::Decimal::checked_mul`; operands and result
/// are converted as in [`decimal_div`]. The product itself is only named.
#[verifier::external_body]
pub(crate) fn decimal_mul(a: Amount, b: Amount) -> (p: Option<Amount>)
    ensures
        p == decimal_product(a, b),
        p matches Some(v) ==> v.wf(),
{
    let x = rust_decimal::Decimal::try_from_i128_with_scale(a.mantissa, a.scale).ok()?;
    let y = rust_decimal::Decimal::try_from_i128_with_scale(b.mantissa, b.scale).ok()?;
    let r = x.checked_mul(y)?;
    Some(Amount { mantissa: r.mantissa(), scale: r.scale() })
}

/// Subtracts with `rust_decimal::Decimal::checked_sub`; operands and result
/// are converted as in [`decimal_div`]. The difference itself is only named.
#[verifier::external_body]
pub(crate) fn decimal_sub(a: Amount, b: Amount) -> (d: Option<Amount>)
    ensures
        d == decimal_difference(a, b),
        d matches Some(v) ==> v.wf(),
{
    let x = rust_decimal::Decimal::try_from_i128_with_scale(a.mantissa, a.scale).ok()?;
    let y = rust_decimal::Decimal::try_from_i128_with_scale(b.mantissa, b.scale).ok()?;
    let r = x.checked_sub(y)?;
    Some(Amount { mantissa: r.mantissa(), scale: r.scale() })
}

} // verus!
