//! Core value types: fixed-point decimals, non-negative amounts, UTC
//! instants and the enumerations that describe an option trade.

pub mod decimal;
pub mod positive;
pub mod datetime;
pub mod types;
pub mod text;
