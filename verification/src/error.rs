//! Error types of the library.

use vstd::prelude::*;

verus! {

/// A decimal operation whose result left the representable range.
#[derive(Clone, Copy, Debug, PartialEq, Eq)]
pub enum DecimalError {
    /// The named operation overflowed.
    Overflow {
        /// Which operation overflowed.
        operation: &'static str,
    },
}

/// A failure while combining or valuing profit and loss.
#[derive(Clone, Copy, Debug, PartialEq, Eq)]
pub enum PricingError {
    /// A non-negative amount overflowed or would have gone below zero.
    Positive {
        /// Which operation failed.
        operation: &'static str,
    },
    /// A decimal amount overflowed.
    Decimal(DecimalError),
}

/// A failure while computing the result of a transaction.
#[derive(Clone, Debug, PartialEq)]
pub struct TransactionError {
    /// What went wrong.
    pub message: String,
}

} // verus!
