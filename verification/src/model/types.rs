//! The enumerations that describe an option trade.

use vstd::prelude::*;

verus! {

/// The direction of a position.
#[derive(Clone, Copy, Debug, PartialEq, Eq, Structural)]
pub enum Side {
    /// Bought: pays the premium.
    Long,
    /// Sold: receives the premium.
    Short,
}

/// Whether the option gives the right to buy or to sell.
#[derive(Clone, Copy, Debug, PartialEq, Eq, Structural)]
pub enum OptionStyle {
    /// The right to buy the underlying.
    Call,
    /// The right to sell the underlying.
    Put,
}

/// `Long` or `Short`.
pub open spec fn side_text(side: Side) -> Seq<char> {
    match side {
        Side::Long => "Long"@,
        Side::Short => "Short"@,
    }
}

impl Side {
    /// The name of the side: `Long` or `Short`.
    pub fn label(&self) -> (r: &'static str)
        ensures
            r@ == side_text(*self),
    {
        match self {
            Side::Long => "Long",
            Side::Short => "Short",
        }
    }
}

/// `Call` or `Put`.
pub open spec fn style_text(style: OptionStyle) -> Seq<char> {
    match style {
        OptionStyle::Call => "Call"@,
        OptionStyle::Put => "Put"@,
    }
}

impl OptionStyle {
    /// The name of the style: `Call` or `Put`.
    pub fn label(&self) -> (r: &'static str)
        ensures
            r@ == style_text(*self),
    {
        match self {
            OptionStyle::Call => "Call",
            OptionStyle::Put => "Put",
        }
    }
}

/// The exercise and payoff kind of an option contract. The parameters of
/// the exotic kinds belong to their pricing models, which this library does
/// not hold; the kinds are told apart here.
#[derive(Clone, Copy, Debug, PartialEq, Eq, Structural)]
pub enum OptionType {
    /// Exercisable at expiry only.
    European,
    /// Exercisable at any time up to expiry.
    American,
    /// Exercisable on given dates.
    Bermuda,
    /// Pays on an average of the underlying.
    Asian,
    /// Activated or cancelled by a price barrier.
    Barrier,
    /// Pays a fixed amount or nothing.
    Binary,
    /// Pays on the best or worst underlying price.
    Lookback,
    /// An option on an option.
    Compound,
    /// The holder chooses call or put at a given date.
    Chooser,
    /// A series of forward-starting options.
    Cliquet,
    /// Pays on several underlyings.
    Rainbow,
    /// Pays on the difference of two underlyings.
    Spread,
    /// Pays in another currency at a fixed rate.
    Quanto,
    /// The right to exchange one asset for another.
    Exchange,
    /// Pays on a power of the underlying.
    Power,
}

/// The life-cycle state of a trade.
#[derive(Clone, Debug, PartialEq)]
pub enum TradeStatus {
    /// Still held.
    Open,
    /// Closed by an offsetting trade.
    Closed,
    /// Expired unexercised.
    Expired,
    /// Exercised by the holder.
    Exercised,
    /// Assigned to the writer.
    Assigned,
    /// Any other state, by name.
    Other(String),
}

} // verus!
