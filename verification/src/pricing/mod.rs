//! Profit at a price, for instruments that can report it.

pub mod payoff;

pub use payoff::Profit;
