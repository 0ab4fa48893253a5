//! Fixed-point decimal values as the scanner reads them: a signed mantissa
//! and a decimal scale, with the arithmetic done by `rust_decimal`.

use rust_decimal::Decimal;
use vstd::arithmetic::power::pow;
use vstd::prelude::*;

verus! {

#[verifier::external_type_specification]
#[verifier::external_body]
pub struct ExDecimal(Decimal);

/// Largest scale (number of fractional digits) a decimal can carry.
pub const MAX_SCALE: u32 = 28;

/// Largest magnitude of a mantissa (96 bits).
pub const MAX_MANTISSA: i128 = 0xFFFF_FFFF_FFFF_FFFF_FFFF_FFFF;

/// A decimal number `mantissa * 10^(-scale)`.
#[derive(Clone, Copy, Debug, PartialEq, Eq, Structural)]
pub struct Dec {
    pub mantissa: i128,
    pub scale: u32,
}

impl Dec {
    /// The representation limits of a decimal.
    pub open spec fn wf(self) -> bool {
        &&& self.scale <= MAX_SCALE
        &&& -MAX_MANTISSA <= self.mantissa <= MAX_MANTISSA
    }

    /// The numeric value in units of `10^-28`, an exact integer for every
    /// well-formed decimal.
    pub open spec fn value(self) -> int {
        self.mantissa * pow(10, (MAX_SCALE - self.scale) as nat)
    }

    /// Builds `mantissa * 10^(-scale)`.
    pub fn new(mantissa: i128, scale: u32) -> (d: Dec)
        ensures
            d.mantissa == mantissa,
            d.scale == scale,
    {
        Dec { mantissa, scale }
    }

    /// Whether the decimal is within the representation limits.
    pub fn is_wf(&self) -> (r: bool)
        ensures
            r == self.wf(),
    {
        self.scale <= MAX_SCALE && -MAX_MANTISSA <= self.mantissa && self.mantissa <= MAX_MANTISSA
    }

    /// Zero.
    pub fn zero() -> (d: Dec)
        ensures
            d == (Dec { mantissa: 0, scale: 0 }),
            d.wf(),
    {
        Dec { mantissa: 0, scale: 0 }
    }

    /// One.
    pub fn one() -> (d: Dec)
        ensures
            d == (Dec { mantissa: 1, scale: 0 }),
            d.wf(),
    {
        Dec { mantissa: 1, scale: 0 }
    }
}

/// What `Decimal::checked_add` returns for two decimals.
pub uninterp spec fn decimal_checked_add(a: Dec, b: Dec) -> Option<Dec>;

/// What `Decimal::checked_sub` returns for two decimals.
pub uninterp spec fn decimal_checked_sub(a: Dec, b: Dec) -> Option<Dec>;

/// What `Decimal::checked_mul` returns for two decimals.
pub uninterp spec fn decimal_checked_mul(a: Dec, b: Dec) -> Option<Dec>;

/// What `Decimal::checked_div` returns for two decimals.
pub uninterp spec fn decimal_checked_div(a: Dec, b: Dec) -> Option<Dec>;

/// Calls `Decimal::checked_add`: the rounded sum, `None` on overflow. The
/// result is named; the contract adds only that it is a well-formed decimal.
#[verifier::external_body]
pub fn checked_add(a: Dec, b: Dec) -> (res: Option<Dec>)
    requires
        a.wf(),
        b.wf(),
    ensures
        res == decimal_checked_add(a, b),
        res matches Some(r) ==> r.wf(),
{
    let x = Decimal::from_i128_with_scale(a.mantissa, a.scale);
    let y = Decimal::from_i128_with_scale(b.mantissa, b.scale);
    match x.checked_add(y) {
        Some(r) => Some(Dec { mantissa: r.mantissa(), scale: r.scale() }),
        None => None,
    }
}

/// Calls `Decimal::checked_sub`: the difference, computed exactly in a
/// wide buffer and rounded to fit, `None` on overflow. The result is named;
/// the contract adds that it is a well-formed decimal with the sign of the
/// exact difference (rounding a non-zero multiple of the finer scale to
/// fit 96 bits never reaches zero or crosses it).
#[verifier::external_body]
pub fn checked_sub(a: Dec, b: Dec) -> (res: Option<Dec>)
    requires
        a.wf(),
        b.wf(),
    ensures
        res == decimal_checked_sub(a, b),
        res matches Some(r) ==> r.wf(),
        res matches Some(r) ==> (r.value() > 0 <==> a.value() > b.value()),
        res matches Some(r) ==> (r.value() < 0 <==> a.value() < b.value()),
{
    let x = Decimal::from_i128_with_scale(a.mantissa, a.scale);
    let y = Decimal::from_i128_with_scale(b.mantissa, b.scale);
    match x.checked_sub(y) {
        Some(r) => Some(Dec { mantissa: r.mantissa(), scale: r.scale() }),
        None => None,
    }
}

/// Calls `Decimal::checked_mul`: the rounded product, `None` on overflow.
/// The result is named; the contract adds that it is a well-formed decimal
/// whose sign is the exclusive or of the operands' signs, so a positive
/// product comes from operands of one sign and a negative one from
/// operands of opposite signs (a zero operand gives zero).
#[verifier::external_body]
pub fn checked_mul(a: Dec, b: Dec) -> (res: Option<Dec>)
    requires
        a.wf(),
        b.wf(),
    ensures
        res == decimal_checked_mul(a, b),
        res matches Some(r) ==> r.wf(),
        res matches Some(r) ==> (r.value() > 0 ==> (a.value() > 0 && b.value() > 0) || (a.value() < 0 && b.value() < 0)),
        res matches Some(r) ==> (r.value() < 0 ==> (a.value() > 0 && b.value() < 0) || (a.value() < 0 && b.value() > 0)),
{
    let x = Decimal::from_i128_with_scale(a.mantissa, a.scale);
    let y = Decimal::from_i128_with_scale(b.mantissa, b.scale);
    match x.checked_mul(y) {
        Some(r) => Some(Dec { mantissa: r.mantissa(), scale: r.scale() }),
        None => None,
    }
}

/// Calls `Decimal::checked_div`: the rounded quotient, `None` on overflow
/// or when the divisor is zero. The quotient itself is named; its sign is
/// the exclusive or of the operands' signs, so a positive quotient comes
/// from operands of one sign and a negative one from operands of opposite
/// signs (a quotient that rounds to zero says nothing).
#[verifier::external_body]
pub fn checked_div(a: Dec, b: Dec) -> (res: Option<Dec>)
    requires
        a.wf(),
        b.wf(),
    ensures
        res == decimal_checked_div(a, b),
        res matches Some(r) ==> r.wf(),
        b.value() == 0 ==> res is None,
        res matches Some(r) ==> (r.value() > 0 ==> (a.value() > 0 && b.value() > 0) || (a.value() < 0 && b.value() < 0)),
        res matches Some(r) ==> (r.value() < 0 ==> (a.value() > 0 && b.value() < 0) || (a.value() < 0 && b.value() > 0)),
{
    let x = Decimal::from_i128_with_scale(a.mantissa, a.scale);
    let y = Decimal::from_i128_with_scale(b.mantissa, b.scale);
    match x.checked_div(y) {
        Some(r) => Some(Dec { mantissa: r.mantissa(), scale: r.scale() }),
        None => None,
    }
}

/// Calls `<` on two `Decimal`s, which compares their numeric values.
#[verifier::external_body]
pub fn lt(a: Dec, b: Dec) -> (res: bool)
    requires
        a.wf(),
        b.wf(),
    ensures
        res == (a.value() < b.value()),
{
    Decimal::from_i128_with_scale(a.mantissa, a.scale) < Decimal::from_i128_with_scale(b.mantissa, b.scale)
}

/// Calls `Decimal::min`, which keeps `a` unless `a > b`; converting back
/// gives the same mantissa and scale that went in.
#[verifier::external_body]
pub fn min(a: Dec, b: Dec) -> (res: Dec)
    requires
        a.wf(),
        b.wf(),
    ensures
        res == (if a.value() > b.value() { b } else { a }),
{
    let r = Decimal::from_i128_with_scale(a.mantissa, a.scale).min(Decimal::from_i128_with_scale(b.mantissa, b.scale));
    Dec { mantissa: r.mantissa(), scale: r.scale() }
}

/// What `Decimal::from_str` gives for a text, `None` where it fails.
pub uninterp spec fn decimal_from_str(text: Seq<char>) -> Option<Dec>;

/// Calls `<Decimal as FromStr>::from_str`. The parse is named; the result
/// is a well-formed decimal.
#[verifier::external_body]
pub fn parse(text: &str) -> (res: Option<Dec>)
    ensures
        res == decimal_from_str(text@),
        res matches Some(r) ==> r.wf(),
{
    match <Decimal as std::str::FromStr>::from_str(text) {
        Ok(r) => Some(Dec { mantissa: r.mantissa(), scale: r.scale() }),
        Err(_) => None,
    }
}

} // verus!
