use optionstratlib::error::{DecimalError, PricingError};
use optionstratlib::model::datetime::UtcDateTime;
use optionstratlib::model::decimal::Decimal;
use optionstratlib::model::positive::Positive;
use optionstratlib::pnl::PnL;

fn utc_now() -> UtcDateTime {
    let t = chrono::Utc::now();
    UtcDateTime { secs: t.timestamp(), nanos: t.timestamp_subsec_nanos() }
}

fn dec(m: i64, s: u32) -> Decimal {
    Decimal::new(m, s)
}

fn pos(m: i64, s: u32) -> Positive {
    Positive::new_decimal(Decimal::new(m, s)).unwrap()
}

fn max_positive() -> Positive {
    Positive(Decimal { mantissa: 79228162514264337593543950335, scale: 0 })
}

fn sample(realized: Option<Decimal>, unrealized: Option<Decimal>, costs: Positive, income: Positive) -> PnL {
    PnL { realized, unrealized, initial_costs: costs, initial_income: income, date_time: utc_now() }
}

#[test]
fn test_pnl_sum() {
    let pnl1 = sample(Some(dec(100, 1)), Some(dec(50, 1)), pos(2, 0), pos(1, 0));
    let pnl2 = sample(Some(dec(200, 1)), Some(dec(100, 1)), pos(30, 1), pos(2, 0));

    let sum = PnL::sum(&[pnl1.clone(), pnl2.clone()]);

    assert_eq!(sum.realized, Some(dec(300, 1)));
    assert_eq!(sum.unrealized, Some(dec(150, 1)));
    assert_eq!(sum.initial_costs, pos(50, 1));
    assert_eq!(sum.initial_income, pos(30, 1));
}

#[test]
fn test_pnl_sum_both_none() {
    let pnl1 = sample(None, None, pos(2, 0), pos(1, 0));
    let pnl2 = sample(None, None, pos(30, 1), pos(2, 0));

    let sum = PnL::sum(&[pnl1, pnl2]);

    assert_eq!(sum.realized, None);
    assert_eq!(sum.unrealized, None);
    assert_eq!(sum.initial_costs, pos(50, 1));
    assert_eq!(sum.initial_income, pos(30, 1));
}

#[test]
fn test_pnl_sum_with_none() {
    let pnl1 = sample(None, Some(dec(50, 1)), pos(2, 0), pos(1, 0));
    let pnl2 = sample(Some(dec(200, 1)), None, pos(30, 1), pos(2, 0));

    let sum = PnL::sum(&[pnl1.clone(), pnl2.clone()]);

    assert_eq!(sum.realized, Some(dec(200, 1)));
    assert_eq!(sum.unrealized, Some(dec(50, 1)));
    assert_eq!(sum.initial_costs, pos(50, 1));
    assert_eq!(sum.initial_income, pos(30, 1));
}

#[test]
fn test_pnl_sum_reference() {
    let pnl1 = sample(Some(dec(100, 1)), Some(dec(50, 1)), pos(2, 0), pos(1, 0));
    let pnl2 = sample(Some(dec(200, 1)), Some(dec(100, 1)), pos(30, 1), pos(2, 0));

    let items = vec![&pnl1, &pnl2];
    let owned: Vec<PnL> = items.into_iter().cloned().collect();
    let sum = PnL::sum(&owned);

    assert_eq!(sum.realized, Some(dec(300, 1)));
    assert_eq!(sum.unrealized, Some(dec(150, 1)));
    assert_eq!(sum.initial_costs, pos(50, 1));
    assert_eq!(sum.initial_income, pos(30, 1));
}

#[test]
fn test_pnl_add() {
    let pnl1 = sample(Some(dec(100, 1)), Some(dec(50, 1)), pos(2, 0), pos(1, 0));
    let pnl2 = sample(Some(dec(200, 1)), Some(dec(100, 1)), pos(30, 1), pos(2, 0));

    let sum = pnl1 + pnl2;
    assert_eq!(sum.realized, Some(dec(300, 1)));
    assert_eq!(sum.unrealized, Some(dec(150, 1)));
    assert_eq!(sum.initial_costs, pos(50, 1));
    assert_eq!(sum.initial_income, pos(30, 1));
}

#[test]
fn test_pnl_add_ref() {
    let pnl1 = sample(Some(dec(100, 1)), Some(dec(50, 1)), pos(2, 0), pos(1, 0));
    let pnl2 = sample(Some(dec(200, 1)), Some(dec(100, 1)), pos(30, 1), pos(2, 0));

    let sum = &pnl1 + &pnl2;
    assert_eq!(sum.realized, Some(dec(300, 1)));
    assert_eq!(sum.unrealized, Some(dec(150, 1)));
    assert_eq!(sum.initial_costs, pos(50, 1));
    assert_eq!(sum.initial_income, pos(30, 1));
}

#[test]
fn test_pnl_try_add_matches_the_operator_in_range() {
    let now = utc_now();
    let pnl1 = PnL { realized: Some(dec(100, 1)), unrealized: Some(dec(50, 1)), initial_costs: pos(2, 0), initial_income: pos(1, 0), date_time: now };
    let pnl2 = PnL { realized: Some(dec(200, 1)), unrealized: Some(dec(100, 1)), initial_costs: pos(30, 1), initial_income: pos(2, 0), date_time: now };

    let Ok(sum) = pnl1.try_add(&pnl2) else {
        unreachable!("both operands are well inside the Decimal range")
    };
    assert_eq!(sum, pnl1 + pnl2);
}

#[test]
fn test_pnl_try_add_reports_what_the_operator_aborts_on() {
    let now = utc_now();
    let pnl1 = PnL { realized: None, unrealized: None, initial_costs: max_positive(), initial_income: Positive::zero(), date_time: now };
    let pnl2 = PnL { realized: None, unrealized: None, initial_costs: max_positive(), initial_income: Positive::zero(), date_time: now };

    assert!(pnl1.try_add(&pnl2).is_err());
}

#[test]
fn test_total_pnl_both_some() {
    let pnl = PnL::new(Some(dec(5000, 1)), Some(dec(2500, 1)), pos(100, 0), pos(3500, 1), utc_now());
    assert_eq!(pnl.total_pnl(), Some(dec(7500, 1)));
}

#[test]
fn test_total_pnl_only_realized() {
    let pnl = PnL::new(Some(dec(3000, 1)), None, pos(100, 0), pos(2000, 1), utc_now());
    assert_eq!(pnl.total_pnl(), Some(dec(3000, 1)));
}

#[test]
fn test_total_pnl_only_unrealized() {
    let pnl = PnL::new(None, Some(dec(1500, 1)), pos(500, 1), pos(100, 0), utc_now());
    assert_eq!(pnl.total_pnl(), Some(dec(1500, 1)));
}

#[test]
fn test_total_pnl_both_none() {
    let pnl = PnL::new(None, None, Positive::zero(), Positive::zero(), utc_now());
    assert_eq!(pnl.total_pnl(), None);
}

#[test]
fn test_total_pnl_negative_values() {
    let pnl = PnL::new(Some(dec(-2000, 1)), Some(dec(-1000, 1)), pos(500, 1), pos(250, 1), utc_now());
    assert_eq!(pnl.total_pnl(), Some(dec(-3000, 1)));
}

#[test]
fn test_total_pnl_mixed_signs() {
    let pnl = PnL::new(Some(dec(5000, 1)), Some(dec(-2000, 1)), pos(100, 0), pos(3000, 1), utc_now());
    assert_eq!(pnl.total_pnl(), Some(dec(3000, 1)));
}

#[test]
fn test_pnl_new() {
    let now = utc_now();
    let pnl = PnL::new(Some(dec(1000, 1)), Some(dec(500, 1)), pos(250, 1), pos(750, 1), now);

    assert_eq!(pnl.realized, Some(dec(1000, 1)));
    assert_eq!(pnl.unrealized, Some(dec(500, 1)));
    assert_eq!(pnl.initial_costs, pos(25, 0));
    assert_eq!(pnl.initial_income, pos(75, 0));
    assert_eq!(pnl.date_time, now);
}

#[test]
fn test_pnl_with_none_values() {
    let now = utc_now();
    let pnl = PnL::new(None, None, pos(100, 1), pos(200, 1), now);

    assert_eq!(pnl.realized, None);
    assert_eq!(pnl.unrealized, None);
    assert_eq!(pnl.initial_costs, pos(100, 1));
    assert_eq!(pnl.initial_income, pos(200, 1));
    assert_eq!(pnl.date_time, now);
}

#[test]
fn total_pnl_reports_an_overflowing_sum_as_none() {
    let max = Decimal { mantissa: 79228162514264337593543950335, scale: 0 };
    let pnl = PnL::new(Some(max), Some(max), Positive::zero(), Positive::zero(), utc_now());
    assert_eq!(pnl.total_pnl(), None);
}

#[test]
fn try_add_takes_the_later_instant_and_adds_every_leg() {
    let early = UtcDateTime { secs: 100, nanos: 5 };
    let late = UtcDateTime { secs: 100, nanos: 6 };
    let a = PnL::new(Some(dec(15, 1)), None, pos(1, 0), pos(2, 0), late);
    let b = PnL::new(Some(dec(-25, 1)), Some(dec(3, 0)), pos(4, 0), pos(8, 0), early);
    let sum = a.try_add(&b).unwrap();
    assert_eq!(sum.realized, Some(dec(-1, 0)));
    assert_eq!(sum.unrealized, Some(dec(3, 0)));
    assert_eq!(sum.initial_costs, pos(5, 0));
    assert_eq!(sum.initial_income, pos(10, 0));
    assert_eq!(sum.date_time, late);
    assert_eq!(b.try_add(&a).unwrap().date_time, late);
}

#[test]
fn try_add_names_the_leg_that_overflowed() {
    let max = Decimal { mantissa: 79228162514264337593543950335, scale: 0 };
    let a = PnL::new(Some(max), Some(max), max_positive(), max_positive(), utc_now());
    let b = a.clone();
    assert_eq!(
        a.try_add(&b),
        Err(PricingError::Decimal(DecimalError::Overflow { operation: "PnL::try_add/realized" }))
    );
    let c = PnL::new(None, Some(max), max_positive(), max_positive(), utc_now());
    assert_eq!(
        c.try_add(&c.clone()),
        Err(PricingError::Decimal(DecimalError::Overflow { operation: "PnL::try_add/unrealized" }))
    );
    let d = PnL::new(None, None, max_positive(), Positive::zero(), utc_now());
    assert_eq!(
        d.try_add(&d.clone()),
        Err(PricingError::Positive { operation: "PnL::try_add/initial_costs" })
    );
    let e = PnL::new(None, None, Positive::zero(), max_positive(), utc_now());
    assert_eq!(
        e.try_add(&e.clone()),
        Err(PricingError::Positive { operation: "PnL::try_add/initial_income" })
    );
}

#[test]
fn sum_of_nothing_is_the_default_and_keeps_the_last_instant() {
    let empty: [PnL; 0] = [];
    assert_eq!(PnL::sum(&empty), PnL::default());
    let first = PnL::new(Some(dec(1, 0)), None, pos(1, 0), pos(1, 0), UtcDateTime { secs: 50, nanos: 0 });
    let second = PnL::new(None, None, pos(1, 0), pos(1, 0), UtcDateTime { secs: 10, nanos: 0 });
    let sum = PnL::sum(&[first, second]);
    assert_eq!(sum.date_time, UtcDateTime { secs: 10, nanos: 0 });
    assert_eq!(sum.realized, Some(dec(1, 0)));
}

#[test]
fn default_pnl_is_empty_at_the_epoch() {
    let d = PnL::default();
    assert_eq!(d.realized, None);
    assert_eq!(d.unrealized, None);
    assert_eq!(d.initial_costs, Positive::zero());
    assert_eq!(d.initial_income, Positive::zero());
    assert_eq!(d.date_time, UtcDateTime::unix_epoch());
}
