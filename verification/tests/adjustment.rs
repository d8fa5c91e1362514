use optionstratlib::model::decimal::Decimal;
use optionstratlib::model::positive::Positive;
use optionstratlib::model::types::{OptionStyle, Side};
use optionstratlib::pnl::{DeltaAdjustment, DeltaAdjustmentSameSize};

fn pos(m: i64, s: u32) -> Positive {
    Positive::new_decimal(Decimal::new(m, s)).unwrap()
}

#[test]
fn buy_options_description() {
    let adj = DeltaAdjustment::BuyOptions {
        quantity: pos(2, 0),
        strike: pos(1000, 1),
        option_style: OptionStyle::Call,
        side: Side::Long,
    };
    assert_eq!(adj.description(), "Buy 2 Long Call options at strike 100");
}

#[test]
fn sell_options_description() {
    let adj = DeltaAdjustment::SellOptions {
        quantity: pos(150, 2),
        strike: pos(955, 1),
        option_style: OptionStyle::Put,
        side: Side::Short,
    };
    assert_eq!(adj.description(), "Sell 1.5 Short Put options at strike 95.5");
}

#[test]
fn underlying_descriptions() {
    assert_eq!(
        DeltaAdjustment::BuyUnderlying(pos(10, 0)).description(),
        "Buy 10 units of the underlying asset"
    );
    assert_eq!(
        DeltaAdjustment::SellUnderlying(pos(2500, 3)).description(),
        "Sell 2.5 units of the underlying asset"
    );
}

#[test]
fn no_adjustment_description() {
    assert_eq!(DeltaAdjustment::NoAdjustmentNeeded.description(), "No adjustment needed");
}

#[test]
fn same_size_description_nests_both_legs() {
    let adj = DeltaAdjustment::SameSize(DeltaAdjustmentSameSize {
        first: Box::new(DeltaAdjustment::BuyUnderlying(pos(1, 0))),
        second: Box::new(DeltaAdjustment::SameSize(DeltaAdjustmentSameSize {
            first: Box::new(DeltaAdjustment::NoAdjustmentNeeded),
            second: Box::new(DeltaAdjustment::SellUnderlying(pos(3, 0))),
        })),
    });
    assert_eq!(
        adj.description(),
        "Same size adjustments: [Buy 1 units of the underlying asset] and \
         [Same size adjustments: [No adjustment needed] and \
         [Sell 3 units of the underlying asset]]"
    );
}

#[test]
fn side_and_style_labels() {
    assert_eq!(Side::Long.label(), "Long");
    assert_eq!(Side::Short.label(), "Short");
    assert_eq!(OptionStyle::Call.label(), "Call");
    assert_eq!(OptionStyle::Put.label(), "Put");
}
