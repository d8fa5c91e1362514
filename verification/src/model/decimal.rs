//! Fixed-point decimal numbers.
//!
//! A [`Decimal`] is the number `mantissa / 10^scale`, with a mantissa of at
//! most 96 bits and a scale of at most 28: the representation of
//! `rust_decimal::Decimal`, whose arithmetic the library calls. Two decimals
//! may denote the same number with different scales (`1.0` and `1.00`);
//! equality compares the numbers.

use vstd::prelude::*;
use crate::error::DecimalError;

verus! {

/// Largest mantissa magnitude, `2^96 - 1`.
pub const MAX_MANTISSA: i128 = 79228162514264337593543950335i128;

/// Largest number of digits after the decimal point.
pub const MAX_SCALE: u32 = 28u32;

/// `10^n`.
pub open spec fn pow10(n: nat) -> int
    decreases n,
{
    if n == 0 {
        1
    } else {
        10 * pow10((n - 1) as nat)
    }
}

/// The number `mantissa / 10^scale`.
#[derive(Clone, Copy, Debug)]
pub struct Decimal {
    /// The signed digits of the number.
    pub mantissa: i128,
    /// How many of those digits stand after the decimal point.
    pub scale: u32,
}

impl Decimal {
    /// The mantissa fits in 96 bits and the scale is at most 28.
    pub open spec fn wf(self) -> bool {
        &&& self.scale <= MAX_SCALE
        &&& -MAX_MANTISSA <= self.mantissa <= MAX_MANTISSA
    }

    /// `self` is the number `num / 10^scale`.
    pub open spec fn denotes(self, num: int, scale: nat) -> bool {
        self.mantissa * pow10(scale) == num * pow10(self.scale as nat)
    }

    /// Both decimals denote the same number.
    pub open spec fn same_value(self, other: Decimal) -> bool {
        other.denotes(self.mantissa as int, self.scale as nat)
    }

    /// The number is below zero.
    pub open spec fn is_negative(self) -> bool {
        self.mantissa < 0
    }

    /// The number with the opposite sign.
    pub open spec fn negated(self) -> Decimal {
        Decimal { mantissa: (-self.mantissa) as i128, scale: self.scale }
    }

    /// Builds `num / 10^scale`.
    pub fn new(num: i64, scale: u32) -> (r: Decimal)
        requires
            scale <= MAX_SCALE,
        ensures
            r.mantissa == num,
            r.scale == scale,
            r.wf(),
    {
        Decimal { mantissa: num as i128, scale }
    }

    /// Whether the mantissa fits in 96 bits and the scale is at most 28.
    pub fn is_well_formed(&self) -> (r: bool)
        ensures
            r == self.wf(),
    {
        self.scale <= MAX_SCALE && -MAX_MANTISSA <= self.mantissa && self.mantissa <= MAX_MANTISSA
    }

    /// The number zero.
    pub fn zero() -> (r: Decimal)
        ensures
            r.mantissa == 0,
            r.scale == 0,
            r.wf(),
    {
        Decimal { mantissa: 0, scale: 0 }
    }

    /// Whether the number is below zero.
    pub fn is_sign_negative(&self) -> (r: bool)
        ensures
            r == self.is_negative(),
    {
        self.mantissa < 0
    }

    /// The number with the opposite sign: exact, the scale is kept.
    pub fn negate(&self) -> (r: Decimal)
        requires
            self.wf(),
        ensures
            r == self.negated(),
            r.wf(),
    {
        Decimal { mantissa: -self.mantissa, scale: self.scale }
    }
}

impl PartialEq for Decimal {
    /// Compares the numbers: `1.0 == 1.00`.
    fn eq(&self, other: &Decimal) -> (r: bool) {
        if self.is_well_formed() && other.is_well_formed() {
            values_equal(self, other)
        } else {
            self.mantissa == other.mantissa && self.scale == other.scale
        }
    }
}

impl vstd::std_specs::cmp::PartialEqSpecImpl for Decimal {
    open spec fn obeys_eq_spec() -> bool {
        true
    }

    open spec fn eq_spec(&self, other: &Decimal) -> bool {
        if self.wf() && other.wf() {
            self.same_value(*other)
        } else {
            self.mantissa == other.mantissa && self.scale == other.scale
        }
    }
}

/// The scale at which two decimals are added: the larger of the two.
pub open spec fn common_scale(a: Decimal, b: Decimal) -> nat {
    if a.scale >= b.scale {
        a.scale as nat
    } else {
        b.scale as nat
    }
}

/// The mantissa of `a` written at the larger scale `s`.
pub open spec fn aligned(a: Decimal, s: nat) -> int {
    a.mantissa * pow10((s - a.scale) as nat)
}

/// The mantissa of `a + b` at their common scale.
pub open spec fn exact_sum(a: Decimal, b: Decimal) -> int {
    aligned(a, common_scale(a, b)) + aligned(b, common_scale(a, b))
}

/// The mantissa of `a - b` at their common scale.
pub open spec fn exact_difference(a: Decimal, b: Decimal) -> int {
    aligned(a, common_scale(a, b)) - aligned(b, common_scale(a, b))
}

/// `a + b` has an exact representation at the common scale.
pub open spec fn sum_fits(a: Decimal, b: Decimal) -> bool {
    -MAX_MANTISSA <= exact_sum(a, b) <= MAX_MANTISSA
}

/// `a - b` has an exact representation at the common scale.
pub open spec fn difference_fits(a: Decimal, b: Decimal) -> bool {
    -MAX_MANTISSA <= exact_difference(a, b) <= MAX_MANTISSA
}

/// `a * b` has an exact representation: the product of the mantissas fits
/// in 96 bits and the sum of the scales is at most 28.
pub open spec fn product_fits(a: Decimal, b: Decimal) -> bool {
    &&& -MAX_MANTISSA <= a.mantissa * b.mantissa <= MAX_MANTISSA
    &&& a.scale + b.scale <= MAX_SCALE
}

/// The magnitude of `x`.
pub open spec fn magnitude(x: int) -> int {
    if x < 0 {
        -x
    } else {
        x
    }
}

/// The number `num / 10^scale` is at least `2^96` in magnitude, beyond every
/// decimal: the largest one is `2^96 - 1`.
pub open spec fn out_of_range(num: int, scale: nat) -> bool {
    magnitude(num) >= (MAX_MANTISSA + 1) * pow10(scale)
}

/// `a + b` is at least `2^96` in magnitude: no decimal holds it.
pub open spec fn add_overflows(a: Decimal, b: Decimal) -> bool {
    out_of_range(exact_sum(a, b), common_scale(a, b))
}

/// `a - b` is at least `2^96` in magnitude: no decimal holds it.
pub open spec fn sub_overflows(a: Decimal, b: Decimal) -> bool {
    out_of_range(exact_difference(a, b), common_scale(a, b))
}

/// `a * b` is at least `2^96` in magnitude: no decimal holds it.
pub open spec fn mul_overflows(a: Decimal, b: Decimal) -> bool {
    out_of_range(a.mantissa * b.mantissa, (a.scale + b.scale) as nat)
}

/// `a + b` is computed without rounding: one operand is zero, or the exact
/// sum fits at the common scale.
pub open spec fn add_is_exact(a: Decimal, b: Decimal) -> bool {
    a.mantissa == 0 || b.mantissa == 0 || sum_fits(a, b)
}

/// `a + b` where it is computed without rounding: the other operand where
/// one is zero, the exact sum at the common scale otherwise.
pub open spec fn exact_add(a: Decimal, b: Decimal) -> Decimal {
    if a.mantissa == 0 {
        b
    } else if b.mantissa == 0 {
        a
    } else {
        Decimal { mantissa: exact_sum(a, b) as i128, scale: common_scale(a, b) as u32 }
    }
}

/// `a - b` is computed without rounding: one operand is zero, or the exact
/// difference fits at the common scale.
pub open spec fn sub_is_exact(a: Decimal, b: Decimal) -> bool {
    a.mantissa == 0 || b.mantissa == 0 || difference_fits(a, b)
}

/// `a - b` where it is computed without rounding: `-b` where `a` is zero,
/// `a` where `b` is zero, the exact difference at the common scale
/// otherwise.
pub open spec fn exact_sub(a: Decimal, b: Decimal) -> Decimal {
    if a.mantissa == 0 {
        b.negated()
    } else if b.mantissa == 0 {
        a
    } else {
        Decimal { mantissa: exact_difference(a, b) as i128, scale: common_scale(a, b) as u32 }
    }
}

/// `a * b` is computed without rounding: one operand is zero, or the
/// product fits.
pub open spec fn mul_is_exact(a: Decimal, b: Decimal) -> bool {
    a.mantissa == 0 || b.mantissa == 0 || product_fits(a, b)
}

/// `a * b` where it is computed without rounding: zero (at scale zero)
/// where an operand is zero, the product of the mantissas at the sum of the
/// scales otherwise.
pub open spec fn exact_mul(a: Decimal, b: Decimal) -> Decimal {
    if a.mantissa == 0 || b.mantissa == 0 {
        Decimal { mantissa: 0, scale: 0 }
    } else {
        Decimal { mantissa: (a.mantissa * b.mantissa) as i128, scale: (a.scale + b.scale) as u32 }
    }
}

/// What `rust_decimal::Decimal::checked_add` returns for two decimals.
pub uninterp spec fn decimal_checked_add(a: Decimal, b: Decimal) -> Option<Decimal>;

/// What `rust_decimal::Decimal::checked_sub` returns for two decimals.
pub uninterp spec fn decimal_checked_sub(a: Decimal, b: Decimal) -> Option<Decimal>;

/// What `rust_decimal::Decimal::checked_mul` returns for two decimals.
pub uninterp spec fn decimal_checked_mul(a: Decimal, b: Decimal) -> Option<Decimal>;

/// Calls `rust_decimal::Decimal::checked_add`. Claimed: the result is a
/// well-formed decimal or `None`; a zero operand gives the other one back,
/// and where the exact sum fits in 96 bits at the common scale it is
/// returned at that scale. Where it does not, the crate rounds to a smaller
/// scale or reports overflow; which is left to the name. The operands are
/// treated alike, so the order does not matter, except that of two zeros
/// the second is returned. A sum of magnitude at least `2^96`, which no
/// decimal holds, gives `None`.
#[verifier::external_body]
pub(crate) fn checked_add(a: Decimal, b: Decimal) -> (r: Option<Decimal>)
    requires
        a.wf(),
        b.wf(),
    ensures
        r == decimal_checked_add(a, b),
        r matches Some(x) ==> x.wf(),
        add_is_exact(a, b) ==> r == Some(exact_add(a, b)),
        decimal_checked_add(b, a) == (if a.mantissa == 0 && b.mantissa == 0 {
            Some(a)
        } else {
            r
        }),
        add_overflows(a, b) ==> r is None,
{
    let x = rust_decimal::Decimal::from_i128_with_scale(a.mantissa, a.scale);
    let y = rust_decimal::Decimal::from_i128_with_scale(b.mantissa, b.scale);
    match x.checked_add(y) {
        Some(d) => Some(Decimal { mantissa: d.mantissa(), scale: d.scale() }),
        None => None,
    }
}

/// Calls `rust_decimal::Decimal::checked_sub`. Claimed: the result is a
/// well-formed decimal or `None`; `0 - b` is `-b`, `a - 0` is `a`, and where
/// the exact difference fits in 96 bits at the common scale it is returned
/// at that scale; a difference of magnitude at least `2^96` gives `None`.
#[verifier::external_body]
pub(crate) fn checked_sub(a: Decimal, b: Decimal) -> (r: Option<Decimal>)
    requires
        a.wf(),
        b.wf(),
    ensures
        r == decimal_checked_sub(a, b),
        r matches Some(x) ==> x.wf(),
        sub_is_exact(a, b) ==> r == Some(exact_sub(a, b)),
        sub_overflows(a, b) ==> r is None,
{
    let x = rust_decimal::Decimal::from_i128_with_scale(a.mantissa, a.scale);
    let y = rust_decimal::Decimal::from_i128_with_scale(b.mantissa, b.scale);
    match x.checked_sub(y) {
        Some(d) => Some(Decimal { mantissa: d.mantissa(), scale: d.scale() }),
        None => None,
    }
}

/// Calls `rust_decimal::Decimal::checked_mul`. Claimed: the result is a
/// well-formed decimal or `None`; a zero operand gives zero at scale zero,
/// and where the product of the mantissas fits in 96 bits and the scales add
/// up to at most 28, the product is returned exactly at that scale; a
/// product of magnitude at least `2^96` gives `None`.
#[verifier::external_body]
pub(crate) fn checked_mul(a: Decimal, b: Decimal) -> (r: Option<Decimal>)
    requires
        a.wf(),
        b.wf(),
    ensures
        r == decimal_checked_mul(a, b),
        r matches Some(x) ==> x.wf(),
        mul_is_exact(a, b) ==> r == Some(exact_mul(a, b)),
        mul_overflows(a, b) ==> r is None,
{
    let x = rust_decimal::Decimal::from_i128_with_scale(a.mantissa, a.scale);
    let y = rust_decimal::Decimal::from_i128_with_scale(b.mantissa, b.scale);
    match x.checked_mul(y) {
        Some(d) => Some(Decimal { mantissa: d.mantissa(), scale: d.scale() }),
        None => None,
    }
}

/// Calls `==` of `rust_decimal::Decimal`, which compares the numbers.
#[verifier::external_body]
pub(crate) fn values_equal(a: &Decimal, b: &Decimal) -> (r: bool)
    requires
        a.wf(),
        b.wf(),
    ensures
        r == a.same_value(*b),
{
    rust_decimal::Decimal::from_i128_with_scale(a.mantissa, a.scale)
        == rust_decimal::Decimal::from_i128_with_scale(b.mantissa, b.scale)
}

/// Adds two decimals, reporting an overflow as an error that names
/// `operation`.
pub fn d_add(a: Decimal, b: Decimal, operation: &'static str) -> (r: Result<Decimal, DecimalError>)
    requires
        a.wf(),
        b.wf(),
    ensures
        r matches Ok(x) ==> decimal_checked_add(a, b) == Some(x) && x.wf(),
        r matches Err(e) ==> decimal_checked_add(a, b) is None && e == (DecimalError::Overflow { operation }),
        add_is_exact(a, b) ==> r is Ok && r->Ok_0 == exact_add(a, b),
        r matches Ok(x) ==> decimal_checked_add(b, a) == (if a.mantissa == 0 && b.mantissa == 0 {
            Some(a)
        } else {
            Some(x)
        }),
        r is Err ==> decimal_checked_add(b, a) is None,
        add_overflows(a, b) ==> r is Err,
{
    match checked_add(a, b) {
        Some(x) => Ok(x),
        None => Err(DecimalError::Overflow { operation }),
    }
}

} // verus!
