//! Decimal amounts (rates, costs, sizes) held as mantissa and scale.

use vstd::prelude::*;

verus! {

/// The largest mantissa a decimal can hold: 2^96 - 1.
pub const MAX_MANTISSA: i128 = 79228162514264337593543950335;

/// The largest number of digits after the decimal point.
pub const MAX_SCALE: u32 = 28;

/// A decimal number worth `mantissa / 10^scale`.
#[derive(Clone, Copy, Debug, PartialEq, Eq, Structural)]
pub struct Amount {
    pub mantissa: i128,
    pub scale: u32,
}

impl View for Amount {
    type V = (int, int);

    open spec fn view(&self) -> (int, int) {
        (self.mantissa as int, self.scale as int)
    }
}

/// The view of an optional amount.
pub open spec fn opt_view(a: Option<Amount>) -> Option<(int, int)> {
    match a {
        Some(x) => Some(x@),
        None => None,
    }
}

/// The result of `Decimal::checked_mul` on two decimals given as (mantissa, scale).
pub uninterp spec fn decimal_product(a: (int, int), b: (int, int)) -> Option<(int, int)>;

/// The result of `Decimal::checked_div` on two decimals given as (mantissa, scale).
pub uninterp spec fn decimal_quotient(a: (int, int), b: (int, int)) -> Option<(int, int)>;

/// The result of `Decimal::checked_add` on two decimals given as (mantissa, scale).
pub uninterp spec fn decimal_sum(a: (int, int), b: (int, int)) -> Option<(int, int)>;

/// The integer part of a non-negative decimal, when it fits in a `u64`.
pub open spec fn integer_part_u64(a: (int, int)) -> Option<u64> {
    if a.0 < 0 || a.1 < 0 {
        None
    } else if a.0 / pow10(a.1 as nat) <= u64::MAX {
        Some((a.0 / pow10(a.1 as nat)) as u64)
    } else {
        None
    }
}

/// Ten to the power `n`.
pub open spec fn pow10(n: nat) -> int
    decreases n,
{
    if n == 0 {
        1
    } else {
        10 * pow10((n - 1) as nat)
    }
}

impl Amount {
    /// Whether the mantissa and scale lie in the range a decimal can hold.
    pub open spec fn wf(self) -> bool {
        &&& -MAX_MANTISSA <= self.mantissa <= MAX_MANTISSA
        &&& self.scale <= MAX_SCALE
    }

    /// Whether the amount is zero.
    pub open spec fn spec_is_zero(self) -> bool {
        self.mantissa == 0
    }

    /// The decimal `mantissa / 10^scale`, or `None` when it is out of range.
    pub fn new(mantissa: i128, scale: u32) -> (r: Option<Amount>)
        ensures
            r matches Some(a) ==> a.mantissa == mantissa && a.scale == scale && a.wf(),
            r is Some <==> (-MAX_MANTISSA <= mantissa <= MAX_MANTISSA && scale <= MAX_SCALE),
    {
        if -MAX_MANTISSA <= mantissa && mantissa <= MAX_MANTISSA && scale <= MAX_SCALE {
            Some(Amount { mantissa, scale })
        } else {
            None
        }
    }

    /// The zero amount.
    pub fn zero() -> (r: Amount)
        ensures
            r.wf(),
            r.mantissa == 0,
            r.scale == 0,
    {
        Amount { mantissa: 0, scale: 0 }
    }

    /// The whole number `n`.
    pub fn from_u64(n: u64) -> (r: Amount)
        ensures
            r.wf(),
            r.mantissa == n,
            r.scale == 0,
    {
        Amount { mantissa: n as i128, scale: 0 }
    }

    /// Whether the amount is zero.
    pub fn is_zero(&self) -> (r: bool)
        ensures
            r == self.spec_is_zero(),
    {
        self.mantissa == 0
    }

    /// The product of two amounts, `None` on overflow.
    pub fn checked_mul(self, other: Amount) -> (r: Option<Amount>)
        requires
            self.wf(),
            other.wf(),
        ensures
            opt_view(r) == decimal_product(self@, other@),
            r matches Some(x) ==> x.wf(),
    {
        decimal_mul(self, other)
    }

    /// The quotient of two amounts, `None` on overflow or division by zero.
    pub fn checked_div(self, other: Amount) -> (r: Option<Amount>)
        requires
            self.wf(),
            other.wf(),
        ensures
            opt_view(r) == decimal_quotient(self@, other@),
            r matches Some(x) ==> x.wf(),
    {
        decimal_div(self, other)
    }

    /// The sum of two amounts, `None` on overflow.
    pub fn checked_add(self, other: Amount) -> (r: Option<Amount>)
        requires
            self.wf(),
            other.wf(),
        ensures
            opt_view(r) == decimal_sum(self@, other@),
            r matches Some(x) ==> x.wf(),
    {
        decimal_add(self, other)
    }

    /// The integer part of a non-negative amount, `None` when negative or too large.
    pub fn to_u64(&self) -> (r: Option<u64>)
        requires
            self.wf(),
        ensures
            r == integer_part_u64(self@),
    {
        decimal_to_u64(*self)
    }
}

/// Relies on `rust_decimal::Decimal::checked_mul`, and on `Decimal::mantissa` and
/// `Decimal::scale` reporting a value that `Decimal::from_i128_with_scale` accepts.
#[verifier::external_body]
fn decimal_mul(a: Amount, b: Amount) -> (r: Option<Amount>)
    requires
        a.wf(),
        b.wf(),
    ensures
        opt_view(r) == decimal_product(a@, b@),
        r matches Some(x) ==> x.wf(),
{
    let x = rust_decimal::Decimal::from_i128_with_scale(a.mantissa, a.scale);
    let y = rust_decimal::Decimal::from_i128_with_scale(b.mantissa, b.scale);
    match x.checked_mul(y) {
        Some(d) => Some(Amount { mantissa: d.mantissa(), scale: d.scale() }),
        None => None,
    }
}

/// Relies on `rust_decimal::Decimal::checked_div`, and on `Decimal::mantissa` and
/// `Decimal::scale` reporting a value that `Decimal::from_i128_with_scale` accepts.
#[verifier::external_body]
fn decimal_div(a: Amount, b: Amount) -> (r: Option<Amount>)
    requires
        a.wf(),
        b.wf(),
    ensures
        opt_view(r) == decimal_quotient(a@, b@),
        r matches Some(x) ==> x.wf(),
{
    let x = rust_decimal::Decimal::from_i128_with_scale(a.mantissa, a.scale);
    let y = rust_decimal::Decimal::from_i128_with_scale(b.mantissa, b.scale);
    match x.checked_div(y) {
        Some(d) => Some(Amount { mantissa: d.mantissa(), scale: d.scale() }),
        None => None,
    }
}

/// Relies on `rust_decimal::Decimal::checked_add`, and on `Decimal::mantissa` and
/// `Decimal::scale` reporting a value that `Decimal::from_i128_with_scale` accepts.
#[verifier::external_body]
fn decimal_add(a: Amount, b: Amount) -> (r: Option<Amount>)
    requires
        a.wf(),
        b.wf(),
    ensures
        opt_view(r) == decimal_sum(a@, b@),
        r matches Some(x) ==> x.wf(),
{
    let x = rust_decimal::Decimal::from_i128_with_scale(a.mantissa, a.scale);
    let y = rust_decimal::Decimal::from_i128_with_scale(b.mantissa, b.scale);
    match x.checked_add(y) {
        Some(d) => Some(Amount { mantissa: d.mantissa(), scale: d.scale() }),
        None => None,
    }
}

/// Relies on rust_decimal's `num_traits::ToPrimitive::to_u64` for `Decimal`: `None` for a
/// negative value, else the value truncated toward zero when it fits in a `u64`.
#[verifier::external_body]
fn decimal_to_u64(a: Amount) -> (r: Option<u64>)
    requires
        a.wf(),
    ensures
        r == integer_part_u64(a@),
{
    let x = rust_decimal::Decimal::from_i128_with_scale(a.mantissa, a.scale);
    num::ToPrimitive::to_u64(&x)
}

} // verus!
