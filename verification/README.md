# optionstratlib — profit and loss of option trades, verified

A library for the profit-and-loss side of option trading, written in Verus.
Every function in `src/` carries a contract. Verus proves them all except
those of the trusted wrappers, marked `#[verifier::external_body]`, which
call `rust_decimal`, `positive`, `chrono` and `num-traits` and whose
contracts state what those crates' sources show.

Option pricing models (Black-Scholes and its exotic variants, binomial
trees, Monte Carlo) are not part of this library: they would rest on option
and position types and Greeks that it does not define, and they compute in
floating point.

## Layout

- `src/model/` — the value types.
  - `decimal.rs`: `Decimal`, the number `mantissa / 10^scale` with a 96-bit
    mantissa and a scale of at most 28. Addition, subtraction and
    multiplication are those of `rust_decimal`, called through trusted
    wrappers; their contracts name the crate's results and state them
    exactly wherever no rounding happens.
  - `positive.rs`: `Positive`, a decimal that is at least zero, with the
    checked arithmetic of the `positive` crate.
  - `datetime.rs`: `UtcDateTime`, an instant as seconds and nanoseconds
    since the Unix epoch, ordered as `chrono` orders instants.
  - `types.rs`: side, option style, option type and trade status, and the
    names of sides and styles.
  - `text.rs`: integers and booleans written digit by digit, decimals and
    positive amounts written as `rust_decimal` and `positive` write them,
    and rounding to a number of decimal places, ties to even.
- `src/pnl/` — profit and loss.
  - `utils.rs`: `PnL`, its total, checked and unchecked addition, sums of
    sequences, and the laws that relate them.
  - `transaction.rs`: `Transaction` and the realized result of a trade.
  - `model.rs`: `PnLRange`, a `[lower, upper)` bucket and its text form.
  - `metrics.rs`: the records of a P&L simulation, their defaults and the
    one-line description of a step.
  - `adjustment.rs`: delta adjustments and the sentence that describes one.
  - `traits.rs`: `TransactionAble`.
- `src/pricing/payoff.rs` — the `Profit` trait.
- `src/error.rs` — error types.
- `app/` — ordinary Rust around the library: conversions to and from
  `rust_decimal`, `positive` and `chrono`; serde-enabled copies of the
  records; their `Display` forms, written by the library's describing
  methods; saving and loading P&L metrics as JSON.
- `tests/` — tests of the library.
