//! Delta adjustments: the hedging actions that keep a strategy delta
//! neutral.

use vstd::prelude::*;
use crate::model::positive::Positive;
use crate::model::text::{positive_text, positive_to_text};
use crate::model::types::{side_text, style_text, OptionStyle, Side};

verus! {

/// How a strategy is adjusted to reach or keep delta neutrality.
#[derive(Debug, PartialEq)]
pub enum DeltaAdjustment {
    /// Buy option contracts.
    BuyOptions {
        /// Number of contracts to buy.
        quantity: Positive,
        /// Strike price of the options.
        strike: Positive,
        /// Call or put.
        option_style: OptionStyle,
        /// Long or short.
        side: Side,
    },
    /// Sell option contracts.
    SellOptions {
        /// Number of contracts to sell.
        quantity: Positive,
        /// Strike price of the options.
        strike: Positive,
        /// Call or put.
        option_style: OptionStyle,
        /// Long or short.
        side: Side,
    },
    /// Buy units of the underlying.
    BuyUnderlying(Positive),
    /// Sell units of the underlying.
    SellUnderlying(Positive),
    /// The strategy is within its neutrality threshold.
    NoAdjustmentNeeded,
    /// Two adjustments made together with the same size.
    SameSize(DeltaAdjustmentSameSize),
}

/// Two adjustments that are executed together with the same size, so that
/// neither leg is left unhedged.
#[derive(Debug, PartialEq)]
pub struct DeltaAdjustmentSameSize {
    /// The first adjustment of the pair.
    pub first: Box<DeltaAdjustment>,
    /// The second adjustment, sized like the first.
    pub second: Box<DeltaAdjustment>,
}

/// Every amount in the adjustment is a well-formed positive amount.
pub open spec fn adjustment_wf(a: DeltaAdjustment) -> bool
    decreases a,
{
    match a {
        DeltaAdjustment::BuyOptions { quantity, strike, .. } => quantity.wf() && strike.wf(),
        DeltaAdjustment::SellOptions { quantity, strike, .. } => quantity.wf() && strike.wf(),
        DeltaAdjustment::BuyUnderlying(quantity) => quantity.wf(),
        DeltaAdjustment::SellUnderlying(quantity) => quantity.wf(),
        DeltaAdjustment::NoAdjustmentNeeded => true,
        DeltaAdjustment::SameSize(pair) => adjustment_wf(*pair.first) && adjustment_wf(
            *pair.second,
        ),
    }
}

/// The sentence that describes an adjustment, such as
/// `Buy 2 Long Call options at strike 100`.
pub open spec fn adjustment_text(a: DeltaAdjustment) -> Seq<char>
    decreases a,
{
    match a {
        DeltaAdjustment::BuyOptions { quantity, strike, option_style, side } => "Buy "@
            + positive_text(quantity) + " "@ + side_text(side) + " "@ + style_text(option_style)
            + " options at strike "@ + positive_text(strike),
        DeltaAdjustment::SellOptions { quantity, strike, option_style, side } => "Sell "@
            + positive_text(quantity) + " "@ + side_text(side) + " "@ + style_text(option_style)
            + " options at strike "@ + positive_text(strike),
        DeltaAdjustment::BuyUnderlying(quantity) => "Buy "@ + positive_text(quantity)
            + " units of the underlying asset"@,
        DeltaAdjustment::SellUnderlying(quantity) => "Sell "@ + positive_text(quantity)
            + " units of the underlying asset"@,
        DeltaAdjustment::NoAdjustmentNeeded => "No adjustment needed"@,
        DeltaAdjustment::SameSize(pair) => "Same size adjustments: ["@ + adjustment_text(
            *pair.first,
        ) + "] and ["@ + adjustment_text(*pair.second) + "]"@,
    }
}

/// Each sentence writes the quantity, and the strike, exactly as the
/// amounts themselves are written, unrounded: `Buy 0.35 units of the
/// underlying asset`.
pub proof fn law_sentences_write_the_amounts(
    quantity: Positive,
    strike: Positive,
    option_style: OptionStyle,
    side: Side,
)
    ensures
        adjustment_text(DeltaAdjustment::BuyUnderlying(quantity)) == "Buy "@ + positive_text(
            quantity,
        ) + " units of the underlying asset"@,
        adjustment_text(DeltaAdjustment::SellUnderlying(quantity)) == "Sell "@ + positive_text(
            quantity,
        ) + " units of the underlying asset"@,
        adjustment_text(DeltaAdjustment::BuyOptions { quantity, strike, option_style, side })
            == "Buy "@ + positive_text(quantity) + " "@ + side_text(side) + " "@ + style_text(
            option_style,
        ) + " options at strike "@ + positive_text(strike),
        adjustment_text(DeltaAdjustment::SellOptions { quantity, strike, option_style, side })
            == "Sell "@ + positive_text(quantity) + " "@ + side_text(side) + " "@ + style_text(
            option_style,
        ) + " options at strike "@ + positive_text(strike),
{
}

/// `Sell ` before a text is `Sell` before what follows the `Buy` of
/// `Buy ` and that text.
proof fn lemma_swap_verb(x: Seq<char>)
    ensures
        "Sell "@ + x == "Sell"@ + ("Buy "@ + x).skip(3),
{
    reveal_strlit("Buy ");
    reveal_strlit("Sell ");
    reveal_strlit("Sell");
    assert("Sell "@ + x =~= "Sell"@ + ("Buy "@ + x).skip(3));
}

/// Regrouping a sentence of a verb and two parts.
proof fn lemma_assoc2(v: Seq<char>, a: Seq<char>, b: Seq<char>)
    ensures
        v + a + b == v + (a + b),
{
    assert(v + a + b =~= v + (a + b));
}

/// Regrouping a sentence of a verb and seven parts.
proof fn lemma_assoc7(
    v: Seq<char>,
    a: Seq<char>,
    b: Seq<char>,
    c: Seq<char>,
    d: Seq<char>,
    e: Seq<char>,
    f: Seq<char>,
    g: Seq<char>,
)
    ensures
        v + a + b + c + d + e + f + g == v + (a + b + c + d + e + f + g),
{
    assert(v + a + b + c + d + e + f + g =~= v + (a + b + c + d + e + f + g));
}

/// Buying and selling the same amount are described alike but for their
/// first word.
pub proof fn law_buy_and_sell_differ_in_the_verb(
    quantity: Positive,
    strike: Positive,
    option_style: OptionStyle,
    side: Side,
)
    ensures
        adjustment_text(DeltaAdjustment::SellUnderlying(quantity)) == "Sell"@ + adjustment_text(
            DeltaAdjustment::BuyUnderlying(quantity),
        ).skip(3),
        adjustment_text(DeltaAdjustment::SellOptions { quantity, strike, option_style, side })
            == "Sell"@ + adjustment_text(
            DeltaAdjustment::BuyOptions { quantity, strike, option_style, side },
        ).skip(3),
{
    let q = positive_text(quantity);
    let u = " units of the underlying asset"@;
    lemma_assoc2("Buy "@, q, u);
    lemma_assoc2("Sell "@, q, u);
    lemma_swap_verb(q + u);
    let (sp, sd, st, at, k) = (
        " "@,
        side_text(side),
        style_text(option_style),
        " options at strike "@,
        positive_text(strike),
    );
    lemma_assoc7("Buy "@, q, sp, sd, sp, st, at, k);
    lemma_assoc7("Sell "@, q, sp, sd, sp, st, at, k);
    lemma_swap_verb(q + sp + sd + sp + st + at + k);
}

impl DeltaAdjustment {
    /// The sentence that describes the adjustment, such as
    /// `Sell 5 units of the underlying asset`.
    pub fn description(&self) -> (r: String)
        requires
            adjustment_wf(*self),
        ensures
            r@ == adjustment_text(*self),
        decreases self,
    {
        let mut s = String::new();
        match self {
            DeltaAdjustment::BuyOptions { quantity, strike, option_style, side } => {
                s.append("Buy ");
                s.append(positive_to_text(*quantity).as_str());
                s.append(" ");
                s.append(side.label());
                s.append(" ");
                s.append(option_style.label());
                s.append(" options at strike ");
                s.append(positive_to_text(*strike).as_str());
            },
            DeltaAdjustment::SellOptions { quantity, strike, option_style, side } => {
                s.append("Sell ");
                s.append(positive_to_text(*quantity).as_str());
                s.append(" ");
                s.append(side.label());
                s.append(" ");
                s.append(option_style.label());
                s.append(" options at strike ");
                s.append(positive_to_text(*strike).as_str());
            },
            DeltaAdjustment::BuyUnderlying(quantity) => {
                s.append("Buy ");
                s.append(positive_to_text(*quantity).as_str());
                s.append(" units of the underlying asset");
            },
            DeltaAdjustment::SellUnderlying(quantity) => {
                s.append("Sell ");
                s.append(positive_to_text(*quantity).as_str());
                s.append(" units of the underlying asset");
            },
            DeltaAdjustment::NoAdjustmentNeeded => {
                s.append("No adjustment needed");
            },
            DeltaAdjustment::SameSize(pair) => {
                s.append("Same size adjustments: [");
                s.append(pair.first.description().as_str());
                s.append("] and [");
                s.append(pair.second.description().as_str());
                s.append("]");
            },
        }
        proof {
            assert(s@ =~= adjustment_text(*self));
        }
        s
    }
}

} // verus!
