use optionstratlib::model::datetime::UtcDateTime;
use optionstratlib::model::decimal::Decimal;
use optionstratlib::model::positive::Positive;
use optionstratlib::pnl::{create_pnl_metrics_document, PnL, PnLMetrics, PnLMetricsStep};

fn pos(m: i64, s: u32) -> Positive {
    Positive::new_decimal(Decimal::new(m, s)).unwrap()
}

fn utc_now() -> UtcDateTime {
    let t = chrono::Utc::now();
    UtcDateTime { secs: t.timestamp(), nanos: t.timestamp_subsec_nanos() }
}

#[test]
fn test_pnl_metrics_step_default() {
    let metrics_step = PnLMetricsStep::default();

    assert_eq!(metrics_step.pnl, PnL::default());
    assert!(!metrics_step.win);
    assert_eq!(metrics_step.step_number, 0);
    assert_eq!(metrics_step.step_duration, Positive::zero());
    assert_eq!(metrics_step.max_unrealized_pnl, Positive::zero());
    assert_eq!(metrics_step.min_unrealized_pnl, Positive::zero());
    assert_eq!(metrics_step.winning_steps, 0);
    assert_eq!(metrics_step.losing_steps, 0);
    assert_eq!(metrics_step.initial_price, Positive::zero());
    assert_eq!(metrics_step.final_price, Positive::zero());
    assert!(metrics_step.strikes.is_empty());
    assert!(metrics_step.initial_volumes.is_empty());
    assert!(metrics_step.final_volumes.is_empty());
    assert_eq!(metrics_step.delta_adjustments, Positive::zero());
}

#[test]
fn test_pnl_metrics_step_display() {
    // Create a sample metrics step
    let metrics_step = PnLMetricsStep {
        win: true,
        step_number: 5,
        step_duration: pos(15, 1),
        max_unrealized_pnl: pos(100, 0),
        min_unrealized_pnl: pos(50, 0),
        winning_steps: 3,
        losing_steps: 2,
        initial_price: pos(95, 0),
        final_price: pos(105, 0),
        strikes: vec![pos(90, 0), pos(100, 0), pos(110, 0)],
        initial_volumes: vec![pos(1, 0), pos(2, 0), pos(3, 0)],
        final_volumes: vec![pos(5, 1), pos(15, 1), pos(25, 1)],
        delta_adjustments: pos(2, 0),
        ..Default::default()
    };

    // Test display output; the P&L part is written by the caller
    let display = metrics_step.describe("{}");

    // Check that all fields are present in the output
    assert!(display.contains("win: true"));
    assert!(display.contains("step_number: 5"));
    assert!(display.contains("step_duration: 1.5"));
    assert!(display.contains("max_unrealized_pnl: 100"));
    assert!(display.contains("min_unrealized_pnl: 50"));
    assert!(display.contains("winning_steps: 3"));
    assert!(display.contains("losing_steps: 2"));
    assert!(display.contains("initial_price: 95"));
    assert!(display.contains("final_price: 105"));
    assert!(display.contains("strikes: [90, 100, 110]"));
    assert!(display.contains("initial_volumes: [1, 2, 3]"));
    assert!(display.contains("final_volumes: [0.5, 1.5, 2.5]"));
    assert!(display.contains("delta_adjustments: 2"));
}

#[test]
fn step_description_is_one_line_in_field_order() {
    let step = PnLMetricsStep {
        win: false,
        step_number: 12,
        step_duration: pos(2, 0),
        strikes: vec![pos(1005, 1)],
        delta_adjustments: pos(150, 2),
        ..Default::default()
    };
    assert_eq!(
        step.describe("PNL"),
        "PnLMetricsStep: {PNL, win: false, step_number: 12, step_duration: 2, \
         max_unrealized_pnl: 0, min_unrealized_pnl: 0, winning_steps: 0, losing_steps: 0, \
         initial_price: 0, final_price: 0, strikes: [100.5], initial_volumes: [], \
         final_volumes: [], delta_adjustments: 1.5}"
    );
}

#[test]
fn step_description_rounds_half_to_even_at_three_places() {
    let step = PnLMetricsStep {
        step_duration: pos(12345, 4),
        max_unrealized_pnl: pos(12355, 4),
        min_unrealized_pnl: pos(19999, 4),
        strikes: vec![pos(20005, 4), pos(10015, 4), pos(7, 0)],
        ..Default::default()
    };
    let display = step.describe("");
    assert!(display.contains("step_duration: 1.234,"));
    assert!(display.contains("max_unrealized_pnl: 1.236,"));
    assert!(display.contains("min_unrealized_pnl: 2,"));
    assert!(display.contains("strikes: [2.000, 1.002, 7]"));
}

#[test]
fn test_pnl_metrics_default() {
    let metrics = PnLMetrics::default();

    assert_eq!(metrics.total_pnl, Decimal::zero());
    assert_eq!(metrics.max_profit, Positive::zero());
    assert_eq!(metrics.max_loss, Positive::zero());
    assert_eq!(metrics.win_rate, Decimal::zero());
    assert_eq!(metrics.loss_rate, Decimal::zero());
    assert_eq!(metrics.total_steps, 0);
    assert_eq!(metrics.winning_steps, 0);
    assert_eq!(metrics.losing_steps, 0);
    assert_eq!(metrics.avg_win, Decimal::zero());
    assert_eq!(metrics.avg_loss, Decimal::zero());
    assert_eq!(metrics.max_drawdown, Positive::zero());
    assert_eq!(metrics.sharpe_ratio, Decimal::zero());
    assert_eq!(metrics.sortino_ratio, Decimal::zero());
    assert_eq!(metrics.profit_factor, Decimal::zero());
    assert_eq!(metrics.recovery_factor, Decimal::zero());
    assert_eq!(metrics.expected_payoff, Decimal::zero());
    assert_eq!(metrics.simulation_duration, Decimal::zero());
    let now = utc_now();
    assert!((metrics.start_time.secs, metrics.start_time.nanos) <= (now.secs, now.nanos));
    assert!((metrics.end_time.secs, metrics.end_time.nanos) <= (now.secs, now.nanos));
    assert!(metrics.end_time.secs - metrics.start_time.secs <= 1);
}

#[test]
fn test_pnl_metrics_document_creation() {
    let metrics_step = PnLMetricsStep {
        step_number: 1,
        win: true,
        initial_price: pos(100, 0),
        final_price: pos(1100, 1),
        ..Default::default()
    };

    let metrics = vec![metrics_step];

    let document = create_pnl_metrics_document(
        metrics.clone(),
        pos(300, 1),
        "AAPL".to_string(),
        pos(65, 2),
        Decimal::new(5, 1),
        Decimal::new(1, 1),
    );

    assert_eq!(document.days, pos(300, 1));
    assert_eq!(document.symbol, "AAPL");
    assert_eq!(document.fee, pos(65, 2));
    assert_eq!(document.delta, Decimal::new(5, 1));
    assert_eq!(document.delta_adjustment_at, Decimal::new(1, 1));
    assert_eq!(document.metrics.len(), 1);
    assert_eq!(document.metrics[0].step_number, 1);
    assert!(document.metrics[0].win);
    assert_eq!(document.metrics[0].initial_price, pos(100, 0));
    assert_eq!(document.metrics[0].final_price, pos(1100, 1));
}

#[test]
fn decimals_compare_by_value_not_by_scale() {
    assert_eq!(Decimal::new(5, 1), Decimal::new(50, 2));
    assert_ne!(Decimal::new(5, 1), Decimal::new(5, 2));
    assert_eq!(pos(1, 0), pos(1000, 3));
    assert!(Positive::new_decimal(Decimal::new(-1, 3)).is_none());
    assert_eq!(Decimal::new(-7, 2).negate(), Decimal::new(7, 2));
    assert!(Decimal::new(-7, 2).is_sign_negative());
}
