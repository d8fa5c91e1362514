//! The profit of an instrument at a given price of its underlying.

use vstd::prelude::*;
use crate::error::PricingError;
use crate::model::decimal::Decimal;
use crate::model::positive::Positive;

verus! {

/// An instrument whose profit can be computed at a price of its
/// underlying.
pub trait Profit {
    /// The profit at `price`, as [`Profit::calculate_profit_at`] gives it:
    /// the amount, or the error that stopped its computation. An implementor
    /// that is verified defines it; for one that is not, it is left open.
    closed spec fn profit_at(&self, price: Positive) -> Result<Decimal, PricingError> {
        arbitrary()
    }

    /// The profit at `price`.
    fn calculate_profit_at(&self, price: &Positive) -> (r: Result<Decimal, PricingError>)
        ensures
            r == self.profit_at(*price),
    ;

    /// The chart point `(price, profit)` at `price`: the price itself and
    /// the profit that [`Profit::calculate_profit_at`] gives there, or its
    /// error.
    fn get_point_at_price(&self, price: &Positive) -> (r: Result<(Decimal, Decimal), PricingError>)
        ensures
            r == (match self.profit_at(*price) {
                Ok(profit) => Ok((price.0, profit)),
                Err(e) => Err(e),
            }),
    {
        match self.calculate_profit_at(price) {
            Ok(profit) => Ok((price.to_dec(), profit)),
            Err(e) => Err(e),
        }
    }
}

} // verus!
