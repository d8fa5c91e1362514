//! Behaviour that holders of transactions provide.

use vstd::prelude::*;
use crate::error::TransactionError;
use crate::pnl::transaction::Transaction;

verus! {

/// An entity that records transactions.
pub trait TransactionAble {
    /// Records a new transaction.
    fn add_transaction(&mut self, transaction: Transaction) -> Result<(), TransactionError>;

    /// All the transactions recorded so far.
    fn get_transactions(&self) -> Result<Vec<Transaction>, TransactionError>;
}

} // verus!
