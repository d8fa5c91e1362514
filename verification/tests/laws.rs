use optionstratlib::error::PricingError;
use optionstratlib::model::datetime::UtcDateTime;
use optionstratlib::model::decimal::{d_add, Decimal};
use optionstratlib::model::positive::Positive;
use optionstratlib::pnl::PnL;
use optionstratlib::pricing::Profit;

fn dec(m: i64, s: u32) -> Decimal {
    Decimal::new(m, s)
}

fn pos(m: i64, s: u32) -> Positive {
    Positive::new_decimal(Decimal::new(m, s)).unwrap()
}

fn at(secs: i64) -> UtcDateTime {
    UtcDateTime { secs, nanos: 0 }
}

#[test]
fn try_add_commutes_on_exact_sums() {
    let a = PnL::new(Some(dec(125, 2)), None, pos(3, 0), pos(15, 1), at(7));
    let b = PnL::new(Some(dec(-5, 0)), Some(dec(1, 3)), pos(25, 2), pos(0, 0), at(9));
    let ab = a.try_add(&b).unwrap();
    let ba = b.try_add(&a).unwrap();
    assert_eq!(ab, ba);
    assert_eq!(ab.realized, Some(dec(-375, 2)));
    assert_eq!(ab.unrealized, Some(dec(1, 3)));
    assert_eq!(ab.initial_costs, pos(325, 2));
    assert_eq!(ab.initial_income, pos(15, 1));
    assert_eq!(ab.date_time, at(9));
}

#[test]
fn try_add_agrees_with_the_operator() {
    let a = PnL::new(Some(dec(1, 0)), Some(dec(2, 0)), pos(3, 0), pos(4, 0), at(1));
    let b = PnL::new(None, Some(dec(-2, 0)), pos(1, 1), pos(1, 2), at(2));
    assert_eq!(a.try_add(&b).unwrap(), a.clone() + b.clone());
    assert_eq!(a.try_add(&b).unwrap(), &a + &b);
}

#[test]
fn try_sum_reports_overflow_where_sum_may_not_run() {
    let max = Decimal { mantissa: 79228162514264337593543950335, scale: 0 };
    let big = PnL::new(Some(max), None, pos(1, 0), pos(1, 0), at(1));
    assert_eq!(PnL::try_sum(&[big.clone(), big.clone()]), None);
    let small = PnL::new(Some(dec(1, 0)), None, pos(1, 0), pos(1, 0), at(3));
    assert_eq!(PnL::try_sum(&[small.clone(), small.clone()]), Some(PnL::sum(&[small.clone(), small])));
}

#[test]
fn d_add_names_the_operation_that_overflowed() {
    let max = Decimal { mantissa: 79228162514264337593543950335, scale: 0 };
    assert!(d_add(max, max, "total").is_err());
    assert_eq!(d_add(dec(15, 1), dec(25, 2), "total").unwrap(), dec(175, 2));
    assert_eq!(d_add(dec(0, 5), dec(7, 0), "total").unwrap(), dec(7, 0));
}

struct Line {
    slope: Decimal,
}

impl Profit for Line {
    fn calculate_profit_at(&self, price: &Positive) -> Result<Decimal, PricingError> {
        if price.0.mantissa == 0 {
            return Err(PricingError::Positive { operation: "zero price" });
        }
        Ok(Decimal { mantissa: self.slope.mantissa * price.0.mantissa, scale: self.slope.scale + price.0.scale })
    }
}

#[test]
fn point_at_price_pairs_the_price_with_the_profit() {
    let line = Line { slope: dec(2, 0) };
    let (x, y) = line.get_point_at_price(&pos(15, 1)).unwrap();
    assert_eq!(x, dec(15, 1));
    assert_eq!(y, dec(3, 0));
    assert!(line.get_point_at_price(&Positive::zero()).is_err());
}

#[test]
fn try_add_does_not_depend_on_order_where_it_rounds() {
    let big = Decimal { mantissa: 79228162514264337593543950335, scale: 28 };
    let a = PnL::new(Some(big), Some(dec(-3, 1)), pos(1, 0), pos(0, 2), at(5));
    let b = PnL::new(Some(dec(1, 0)), None, pos(25, 3), pos(0, 0), at(4));
    let ab = a.try_add(&b).unwrap();
    let ba = b.try_add(&a).unwrap();
    assert_eq!(ab, ba);
    // 7.92... + 1 does not fit at scale 28, so the sum is rounded to fewer places
    assert!(ab.realized.unwrap().scale < 28);
    assert_eq!(ab.date_time, at(5));
}

#[test]
fn try_add_reports_the_same_error_in_either_order() {
    let big = Decimal { mantissa: 79228162514264337593543950335, scale: 0 };
    let a = PnL::new(None, Some(big), pos(1, 0), pos(0, 0), at(1));
    let b = PnL::new(Some(dec(2, 0)), Some(big), pos(1, 0), pos(0, 0), at(2));
    assert_eq!(a.try_add(&b).unwrap_err(), b.try_add(&a).unwrap_err());
}
