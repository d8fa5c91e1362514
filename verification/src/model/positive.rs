//! Non-negative decimal amounts: prices, quantities, fees, costs.
//!
//! [`Positive`] holds a [`Decimal`] that is at least zero, as
//! `positive::Positive` does; its checked arithmetic is that crate's.

use vstd::prelude::*;
use crate::model::decimal::{
    add_is_exact, add_overflows, decimal_checked_add, decimal_checked_sub, exact_add, exact_sub, sub_is_exact,
    Decimal,
};

verus! {

#[verifier::external_type_specification]
#[verifier::external_body]
pub struct ExPositiveError(::positive::PositiveError);

/// A decimal amount that is at least zero.
#[derive(Clone, Copy, Debug)]
pub struct Positive(pub Decimal);

impl Positive {
    /// The decimal is well formed and not below zero.
    pub open spec fn wf(self) -> bool {
        self.0.wf() && self.0.mantissa >= 0
    }

    /// Wraps `value` when it is at least zero.
    pub fn new_decimal(value: Decimal) -> (r: Option<Positive>)
        requires
            value.wf(),
        ensures
            r is Some <==> value.mantissa >= 0,
            r matches Some(p) ==> p.0 == value && p.wf(),
    {
        if value.mantissa >= 0 {
            Some(Positive(value))
        } else {
            None
        }
    }

    /// The amount zero.
    pub fn zero() -> (r: Positive)
        ensures
            r.0.mantissa == 0,
            r.0.scale == 0,
            r.wf(),
    {
        Positive(Decimal::zero())
    }

    /// The amount as a decimal.
    pub fn to_dec(&self) -> (r: Decimal)
        ensures
            r == self.0,
    {
        self.0
    }
}

impl PartialEq for Positive {
    /// Compares the amounts: `1.0 == 1.00`.
    fn eq(&self, other: &Positive) -> (r: bool) {
        self.0 == other.0
    }
}

impl vstd::std_specs::cmp::PartialEqSpecImpl for Positive {
    open spec fn obeys_eq_spec() -> bool {
        true
    }

    open spec fn eq_spec(&self, other: &Positive) -> bool {
        if self.0.wf() && other.0.wf() {
            self.0.same_value(other.0)
        } else {
            self.0.mantissa == other.0.mantissa && self.0.scale == other.0.scale
        }
    }
}

/// Calls `positive::Positive::checked_add`, which adds the two decimals with
/// `rust_decimal::Decimal::checked_add` and keeps a result that is at least
/// zero. Claimed: `Ok` holds exactly what that decimal addition returned; an
/// exact sum that fits is returned; the decimal addition in the other order
/// gives the same, except that of two zeros it gives the other one; a sum
/// of magnitude at least `2^96` is an error.
#[verifier::external_body]
pub(crate) fn positive_checked_add(a: Positive, b: Positive) -> (r: Result<Positive, ::positive::PositiveError>)
    requires
        a.wf(),
        b.wf(),
    ensures
        r matches Ok(p) ==> p.wf() && decimal_checked_add(a.0, b.0) == Some(p.0),
        r is Err ==> decimal_checked_add(a.0, b.0) is None,
        add_is_exact(a.0, b.0) ==> r is Ok && r->Ok_0 == Positive(exact_add(a.0, b.0)),
        r matches Ok(p) ==> decimal_checked_add(b.0, a.0) == (if a.0.mantissa == 0 && b.0.mantissa
            == 0 {
            Some(a.0)
        } else {
            Some(p.0)
        }),
        r is Err ==> decimal_checked_add(b.0, a.0) is None,
        add_overflows(a.0, b.0) ==> r is Err,
{
    let x = ::positive::Positive::new_decimal(rust_decimal::Decimal::from_i128_with_scale(a.0.mantissa, a.0.scale))?;
    let y = ::positive::Positive::new_decimal(rust_decimal::Decimal::from_i128_with_scale(b.0.mantissa, b.0.scale))?;
    let s = x.checked_add(&y)?.to_dec();
    Ok(Positive(Decimal { mantissa: s.mantissa(), scale: s.scale() }))
}

/// Calls `positive::Positive::checked_sub`, which subtracts the two decimals
/// with `rust_decimal::Decimal::checked_sub` and keeps a result that is at
/// least zero. Claimed: `Ok` holds exactly what that decimal subtraction
/// returned; `Err` comes when it overflowed or went below zero.
#[verifier::external_body]
pub(crate) fn positive_checked_sub(a: Positive, b: Positive) -> (r: Result<Positive, ::positive::PositiveError>)
    requires
        a.wf(),
        b.wf(),
    ensures
        r matches Ok(p) ==> p.wf() && decimal_checked_sub(a.0, b.0) == Some(p.0),
        r is Err ==> (decimal_checked_sub(a.0, b.0) is None || decimal_checked_sub(a.0, b.0)->0.mantissa < 0),
        (sub_is_exact(a.0, b.0) && exact_sub(a.0, b.0).mantissa >= 0) ==> r is Ok && r->Ok_0
            == Positive(exact_sub(a.0, b.0)),
{
    let x = ::positive::Positive::new_decimal(rust_decimal::Decimal::from_i128_with_scale(a.0.mantissa, a.0.scale))?;
    let y = ::positive::Positive::new_decimal(rust_decimal::Decimal::from_i128_with_scale(b.0.mantissa, b.0.scale))?;
    let s = x.checked_sub(&y)?.to_dec();
    Ok(Positive(Decimal { mantissa: s.mantissa(), scale: s.scale() }))
}

} // verus!
