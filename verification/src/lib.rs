//! Profit-and-loss accounting for option trading: decimal and positive
//! amounts, trades and their realized results, P&L aggregation, P&L range
//! buckets and the records of a P&L simulation.

pub mod error;
pub mod model;
pub mod pnl;
pub mod pricing;
