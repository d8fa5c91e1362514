//! The profit and loss of a position, and how two of them combine.

use vstd::prelude::*;
use crate::error::{DecimalError, PricingError};
use crate::model::datetime::UtcDateTime;
use crate::model::decimal::{
    add_is_exact, add_overflows, checked_add, common_scale, d_add, decimal_checked_add, exact_add, exact_sum, pow10,
    Decimal,
};
use crate::model::positive::{positive_checked_add, Positive};

verus! {

/// The profit and loss of a position: realized and unrealized results, the
/// costs paid and the income received on entry, and when it was computed.
#[derive(Clone, Debug, PartialEq)]
pub struct PnL {
    /// The result already crystallized by closed trades, if any.
    pub realized: Option<Decimal>,
    /// The result the position would give if closed now, if known.
    pub unrealized: Option<Decimal>,
    /// What entering the position cost.
    pub initial_costs: Positive,
    /// What entering the position brought in.
    pub initial_income: Positive,
    /// When this result was computed.
    pub date_time: UtcDateTime,
}

/// Both optional decimals are well formed where present.
pub open spec fn option_wf(d: Option<Decimal>) -> bool {
    d matches Some(x) ==> x.wf()
}

/// One leg of a sum of two results: the decimal sum where both are present,
/// the one present otherwise, nothing where neither is. `None` where the
/// decimal sum overflowed.
pub open spec fn leg_sum(a: Option<Decimal>, b: Option<Decimal>) -> Option<Option<Decimal>> {
    match (a, b) {
        (Some(x), Some(y)) => match decimal_checked_add(x, y) {
            Some(s) => Some(Some(s)),
            None => None,
        },
        (Some(x), None) => Some(Some(x)),
        (None, Some(y)) => Some(Some(y)),
        (None, None) => Some(None),
    }
}

/// Where both are present, their sum is computed without rounding.
pub open spec fn leg_is_exact(a: Option<Decimal>, b: Option<Decimal>) -> bool {
    match (a, b) {
        (Some(x), Some(y)) => add_is_exact(x, y),
        _ => true,
    }
}

/// One leg of a sum of two results where it is computed without rounding.
pub open spec fn exact_leg(a: Option<Decimal>, b: Option<Decimal>) -> Option<Decimal> {
    match (a, b) {
        (Some(x), Some(y)) => Some(exact_add(x, y)),
        (Some(x), None) => Some(x),
        (None, Some(y)) => Some(y),
        (None, None) => None,
    }
}

/// Both are present and their sum is at least `2^96` in magnitude, beyond
/// every decimal.
pub open spec fn leg_overflows(a: Option<Decimal>, b: Option<Decimal>) -> bool {
    match (a, b) {
        (Some(x), Some(y)) => add_overflows(x, y),
        _ => false,
    }
}

/// Both are absent, or both are present and denote the same number.
pub open spec fn same_optional_value(a: Option<Decimal>, b: Option<Decimal>) -> bool {
    match (a, b) {
        (Some(x), Some(y)) => x.same_value(y),
        (None, None) => true,
        _ => false,
    }
}

impl PnL {
    /// All amounts and the instant are well formed.
    pub open spec fn wf(self) -> bool {
        &&& option_wf(self.realized)
        &&& option_wf(self.unrealized)
        &&& self.initial_costs.wf()
        &&& self.initial_income.wf()
        &&& self.date_time.wf()
    }

    /// The sum of two results, where every leg is defined: the legs added,
    /// the costs and incomes added, the later of the two instants.
    pub open spec fn sum_spec(self, other: PnL) -> PnL {
        PnL {
            realized: leg_sum(self.realized, other.realized)->0,
            unrealized: leg_sum(self.unrealized, other.unrealized)->0,
            initial_costs: Positive(decimal_checked_add(self.initial_costs.0, other.initial_costs.0)->0),
            initial_income: Positive(decimal_checked_add(self.initial_income.0, other.initial_income.0)->0),
            date_time: if self.date_time.is_after(other.date_time) {
                self.date_time
            } else {
                other.date_time
            },
        }
    }

    /// Every addition in the sum of two results is computed without
    /// rounding.
    pub open spec fn sum_is_exact(self, other: PnL) -> bool {
        &&& leg_is_exact(self.realized, other.realized)
        &&& leg_is_exact(self.unrealized, other.unrealized)
        &&& add_is_exact(self.initial_costs.0, other.initial_costs.0)
        &&& add_is_exact(self.initial_income.0, other.initial_income.0)
    }

    /// The sum of two results where every addition is computed without
    /// rounding.
    pub open spec fn exact_sum_pnl(self, other: PnL) -> PnL {
        PnL {
            realized: exact_leg(self.realized, other.realized),
            unrealized: exact_leg(self.unrealized, other.unrealized),
            initial_costs: Positive(exact_add(self.initial_costs.0, other.initial_costs.0)),
            initial_income: Positive(exact_add(self.initial_income.0, other.initial_income.0)),
            date_time: if self.date_time.is_after(other.date_time) {
                self.date_time
            } else {
                other.date_time
            },
        }
    }

    /// Two results hold the same numbers and the same instant.
    pub open spec fn same_value(self, other: PnL) -> bool {
        &&& same_optional_value(self.realized, other.realized)
        &&& same_optional_value(self.unrealized, other.unrealized)
        &&& self.initial_costs.0.same_value(other.initial_costs.0)
        &&& self.initial_income.0.same_value(other.initial_income.0)
        &&& self.date_time == other.date_time
    }

    /// A total of the sum of two results leaves the range of its type: the
    /// realized or unrealized sum, or the sum of the costs or of the incomes,
    /// is at least `2^96` in magnitude.
    pub open spec fn sum_overflows(self, other: PnL) -> bool {
        ||| leg_overflows(self.realized, other.realized)
        ||| leg_overflows(self.unrealized, other.unrealized)
        ||| add_overflows(self.initial_costs.0, other.initial_costs.0)
        ||| add_overflows(self.initial_income.0, other.initial_income.0)
    }

    /// Every leg of the sum of two results is defined: no addition overflows.
    pub open spec fn sum_defined(self, other: PnL) -> bool {
        &&& leg_sum(self.realized, other.realized) is Some
        &&& leg_sum(self.unrealized, other.unrealized) is Some
        &&& decimal_checked_add(self.initial_costs.0, other.initial_costs.0) is Some
        &&& decimal_checked_add(self.initial_income.0, other.initial_income.0) is Some
    }

    /// The error that adding two results reports: the first leg that
    /// overflows, in the order realized, unrealized, costs, income.
    pub open spec fn sum_error(self, other: PnL) -> PricingError {
        if leg_sum(self.realized, other.realized) is None {
            PricingError::Decimal(DecimalError::Overflow { operation: "PnL::try_add/realized" })
        } else if leg_sum(self.unrealized, other.unrealized) is None {
            PricingError::Decimal(DecimalError::Overflow { operation: "PnL::try_add/unrealized" })
        } else if decimal_checked_add(self.initial_costs.0, other.initial_costs.0) is None {
            PricingError::Positive { operation: "PnL::try_add/initial_costs" }
        } else {
            PricingError::Positive { operation: "PnL::try_add/initial_income" }
        }
    }

    /// Builds a result from its parts.
    pub fn new(
        realized: Option<Decimal>,
        unrealized: Option<Decimal>,
        initial_costs: Positive,
        initial_income: Positive,
        date_time: UtcDateTime,
    ) -> (r: PnL)
        ensures
            r.realized == realized,
            r.unrealized == unrealized,
            r.initial_costs == initial_costs,
            r.initial_income == initial_income,
            r.date_time == date_time,
    {
        PnL { realized, unrealized, initial_costs, initial_income, date_time }
    }

    /// The realized and unrealized results added: `None` where neither is
    /// known or where their sum leaves the decimal range, the one known
    /// where only one is.
    pub fn total_pnl(&self) -> (r: Option<Decimal>)
        requires
            self.wf(),
        ensures
            r == (match (self.realized, self.unrealized) {
                (Some(a), Some(b)) => decimal_checked_add(a, b),
                (Some(a), None) => Some(a),
                (None, Some(b)) => Some(b),
                (None, None) => None,
            }),
            leg_is_exact(self.realized, self.unrealized) ==> r == exact_leg(self.realized, self.unrealized),
            leg_overflows(self.realized, self.unrealized) ==> r is None,
    {
        match (self.realized, self.unrealized) {
            (Some(r), Some(u)) => checked_add(r, u),
            (Some(r), None) => Some(r),
            (None, Some(u)) => Some(u),
            (None, None) => None,
        }
    }

    /// Adds two results, reporting overflow: each of realized and
    /// unrealized is the sum where both are present and the one present
    /// otherwise; costs and incomes are added; the instant is the later one.
    /// The order of the two does not matter: the other order succeeds on the
    /// same inputs, with the same numbers and instant, or fails with the same
    /// error, also where the decimal sums are rounded. A total of magnitude
    /// at least `2^96`, which the `+` operator aborts on, is reported as an
    /// error that names the first such total, in the order realized,
    /// unrealized, costs, income.
    pub fn try_add(&self, other: &PnL) -> (r: Result<PnL, PricingError>)
        requires
            self.wf(),
            other.wf(),
        ensures
            r is Ok <==> self.sum_defined(*other),
            r matches Ok(p) ==> p == self.sum_spec(*other) && p.wf(),
            r matches Err(e) ==> e == self.sum_error(*other),
            self.sum_is_exact(*other) ==> r is Ok && r->Ok_0 == self.exact_sum_pnl(*other),
            r is Ok <==> other.sum_defined(*self),
            r matches Ok(p) ==> p.same_value(other.sum_spec(*self)),
            r matches Err(e) ==> e == other.sum_error(*self),
            self.sum_overflows(*other) ==> r is Err,
            leg_overflows(self.realized, other.realized) ==> r == Err::<PnL, PricingError>(
                PricingError::Decimal(DecimalError::Overflow { operation: "PnL::try_add/realized" }),
            ),
            leg_sum(self.realized, other.realized) is Some && leg_overflows(
                self.unrealized,
                other.unrealized,
            ) ==> r == Err::<PnL, PricingError>(
                PricingError::Decimal(DecimalError::Overflow { operation: "PnL::try_add/unrealized" }),
            ),
            leg_sum(self.realized, other.realized) is Some && leg_sum(
                self.unrealized,
                other.unrealized,
            ) is Some && add_overflows(self.initial_costs.0, other.initial_costs.0) ==> r == Err::<
                PnL,
                PricingError,
            >(PricingError::Positive { operation: "PnL::try_add/initial_costs" }),
            leg_sum(self.realized, other.realized) is Some && leg_sum(
                self.unrealized,
                other.unrealized,
            ) is Some && decimal_checked_add(self.initial_costs.0, other.initial_costs.0) is Some
                && add_overflows(self.initial_income.0, other.initial_income.0) ==> r == Err::<
                PnL,
                PricingError,
            >(PricingError::Positive { operation: "PnL::try_add/initial_income" }),
    {
        let realized = match add_leg(self.realized, other.realized, "PnL::try_add/realized") {
            Ok(x) => x,
            Err(e) => {
                return Err(PricingError::Decimal(e));
            },
        };
        let unrealized = match add_leg(self.unrealized, other.unrealized, "PnL::try_add/unrealized") {
            Ok(x) => x,
            Err(e) => {
                return Err(PricingError::Decimal(e));
            },
        };
        let initial_costs = match positive_checked_add(self.initial_costs, other.initial_costs) {
            Ok(p) => p,
            Err(_) => {
                return Err(PricingError::Positive { operation: "PnL::try_add/initial_costs" });
            },
        };
        let initial_income = match positive_checked_add(self.initial_income, other.initial_income) {
            Ok(p) => p,
            Err(_) => {
                return Err(PricingError::Positive { operation: "PnL::try_add/initial_income" });
            },
        };
        let date_time = if self.date_time.after(&other.date_time) {
            self.date_time
        } else {
            other.date_time
        };
        let r = PnL { realized, unrealized, initial_costs, initial_income, date_time };
        proof {
            lemma_same_value_reflexive(initial_costs.0);
            lemma_same_value_reflexive(initial_income.0);
            lemma_zeros_same_value(initial_costs.0, other.initial_costs.0);
            lemma_zeros_same_value(initial_income.0, other.initial_income.0);
            lemma_zeros_same_value(initial_costs.0, self.initial_costs.0);
            lemma_zeros_same_value(initial_income.0, self.initial_income.0);
            assert(r.same_value(other.sum_spec(*self)));
        }
        Ok(r)
    }
}

/// The result with nothing realized or unrealized, zero costs and income,
/// at the Unix epoch.
pub open spec fn default_pnl() -> PnL {
    PnL {
        realized: None,
        unrealized: None,
        initial_costs: Positive(Decimal { mantissa: 0, scale: 0 }),
        initial_income: Positive(Decimal { mantissa: 0, scale: 0 }),
        date_time: UtcDateTime { secs: 0, nanos: 0 },
    }
}

impl Default for PnL {
    fn default() -> (r: PnL)
        ensures
            r == default_pnl(),
            r.wf(),
    {
        PnL {
            realized: None,
            unrealized: None,
            initial_costs: Positive::zero(),
            initial_income: Positive::zero(),
            date_time: UtcDateTime::unix_epoch(),
        }
    }
}

/// The sum of two results as the `+` operator forms it, where every leg is
/// defined: as [`PnL::sum_spec`].
impl core::ops::Add for PnL {
    type Output = PnL;

    fn add(self, other: PnL) -> (r: PnL)
        ensures
            r.wf(),
            self.sum_is_exact(other) ==> r == self.exact_sum_pnl(other),
    {
        match self.try_add(&other) {
            Ok(p) => p,
            Err(_) => {
                proof {
                    assert(false);
                }
                self
            },
        }
    }
}

impl vstd::std_specs::ops::AddSpecImpl for PnL {
    open spec fn obeys_add_spec() -> bool {
        true
    }

    open spec fn add_req(self, rhs: PnL) -> bool {
        self.wf() && rhs.wf() && self.sum_defined(rhs)
    }

    open spec fn add_spec(self, rhs: PnL) -> PnL {
        self.sum_spec(rhs)
    }
}

/// The sum of two borrowed results: as for owned ones.
impl<'a> core::ops::Add for &'a PnL {
    type Output = PnL;

    fn add(self, other: &'a PnL) -> (r: PnL)
        ensures
            r.wf(),
            self.sum_is_exact(*other) ==> r == self.exact_sum_pnl(*other),
    {
        match self.try_add(other) {
            Ok(p) => p,
            Err(_) => {
                proof {
                    assert(false);
                }
                self.clone()
            },
        }
    }
}

impl<'a> vstd::std_specs::ops::AddSpecImpl for &'a PnL {
    open spec fn obeys_add_spec() -> bool {
        true
    }

    open spec fn add_req(self, rhs: &'a PnL) -> bool {
        self.wf() && rhs.wf() && self.sum_defined(*rhs)
    }

    open spec fn add_spec(self, rhs: &'a PnL) -> PnL {
        self.sum_spec(*rhs)
    }
}

/// One step of summing a sequence of results: the legs, costs and incomes
/// added as by `+`, but the instant taken from the newer item `x`.
pub open spec fn accumulate(acc: PnL, x: PnL) -> PnL {
    PnL {
        realized: leg_sum(acc.realized, x.realized)->0,
        unrealized: leg_sum(acc.unrealized, x.unrealized)->0,
        initial_costs: Positive(decimal_checked_add(acc.initial_costs.0, x.initial_costs.0)->0),
        initial_income: Positive(decimal_checked_add(acc.initial_income.0, x.initial_income.0)->0),
        date_time: x.date_time,
    }
}

/// The sum of a sequence of results, folded from the default result.
pub open spec fn fold_sum(s: Seq<PnL>) -> PnL
    decreases s.len(),
{
    if s.len() == 0 {
        default_pnl()
    } else {
        accumulate(fold_sum(s.drop_last()), s.last())
    }
}

/// No addition in the fold of `s` overflows.
pub open spec fn fold_defined(s: Seq<PnL>) -> bool
    decreases s.len(),
{
    if s.len() == 0 {
        true
    } else {
        fold_defined(s.drop_last()) && fold_sum(s.drop_last()).sum_defined(s.last())
    }
}

/// Some step of the fold of `s`, reached without an earlier overflow, adds
/// a result whose total leaves the range of its type.
pub open spec fn fold_overflows(s: Seq<PnL>) -> bool
    decreases s.len(),
{
    if s.len() == 0 {
        false
    } else {
        fold_overflows(s.drop_last()) || (fold_defined(s.drop_last()) && fold_sum(
            s.drop_last(),
        ).sum_overflows(s.last()))
    }
}

/// A fold without overflow has no overflow on any prefix either.
pub proof fn lemma_fold_defined_prefix(s: Seq<PnL>, n: int)
    requires
        fold_defined(s),
        0 <= n <= s.len(),
    ensures
        fold_defined(s.take(n)),
    decreases s.len(),
{
    if n < s.len() {
        assert(s.drop_last().take(n) =~= s.take(n));
        lemma_fold_defined_prefix(s.drop_last(), n);
    } else {
        assert(s.take(n) =~= s);
    }
}

/// One step of summing where every addition is computed without rounding.
pub open spec fn exact_accumulate(acc: PnL, x: PnL) -> PnL {
    PnL { date_time: x.date_time, ..acc.exact_sum_pnl(x) }
}

/// The sum of a sequence of results where every addition is computed
/// without rounding.
pub open spec fn exact_fold_sum(s: Seq<PnL>) -> PnL
    decreases s.len(),
{
    if s.len() == 0 {
        default_pnl()
    } else {
        exact_accumulate(exact_fold_sum(s.drop_last()), s.last())
    }
}

/// Every addition in the fold of `s` is computed without rounding.
pub open spec fn fold_is_exact(s: Seq<PnL>) -> bool
    decreases s.len(),
{
    if s.len() == 0 {
        true
    } else {
        fold_is_exact(s.drop_last()) && exact_fold_sum(s.drop_last()).sum_is_exact(s.last())
    }
}

/// A fold without rounding has no rounding on any prefix either.
pub proof fn lemma_fold_exact_prefix(s: Seq<PnL>, n: int)
    requires
        fold_is_exact(s),
        0 <= n <= s.len(),
    ensures
        fold_is_exact(s.take(n)),
    decreases s.len(),
{
    if n < s.len() {
        assert(s.drop_last().take(n) =~= s.take(n));
        lemma_fold_exact_prefix(s.drop_last(), n);
    } else {
        assert(s.take(n) =~= s);
    }
}

impl PnL {
    /// Sums a sequence of results from the default one: realized and
    /// unrealized legs, costs and incomes are added, and the instant is that
    /// of the last item.
    pub fn sum(items: &[PnL]) -> (r: PnL)
        requires
            forall|i: int| 0 <= i < items@.len() ==> (#[trigger] items@[i]).wf(),
            fold_defined(items@),
        ensures
            r == fold_sum(items@),
            r.wf(),
            fold_is_exact(items@) ==> r == exact_fold_sum(items@),
    {
        let mut acc = PnL::default();
        let n: usize = items.len();
        for i in 0..n
            invariant
                n == items@.len(),
                forall|j: int| 0 <= j < items@.len() ==> (#[trigger] items@[j]).wf(),
                fold_defined(items@),
                acc == fold_sum(items@.take(i as int)),
                acc.wf(),
                fold_is_exact(items@.take(i as int)) ==> acc == exact_fold_sum(items@.take(i as int)),
        {
            proof {
                lemma_fold_defined_prefix(items@, i + 1);
                assert(items@.take(i + 1).drop_last() =~= items@.take(i as int));
            }
            let x = &items[i];
            match acc.try_add(x) {
                Ok(p) => {
                    acc = PnL {
                        realized: p.realized,
                        unrealized: p.unrealized,
                        initial_costs: p.initial_costs,
                        initial_income: p.initial_income,
                        date_time: x.date_time,
                    };
                },
                Err(_) => {
                    proof {
                        assert(false);
                    }
                },
            }
        }
        proof {
            assert(items@.take(n as int) =~= items@);
        }
        acc
    }
}

/// The `+` operator on results applies exactly where `try_add` succeeds,
/// and there gives the same result.
pub proof fn law_try_add_agrees_with_add(a: PnL, b: PnL)
    requires
        a.wf(),
        b.wf(),
    ensures
        vstd::std_specs::ops::AddSpec::add_req(a, b) <==> a.sum_defined(b),
        a.sum_defined(b) ==> vstd::std_specs::ops::AddSpec::add_spec(a, b) == a.sum_spec(b),
{
}

/// Summing no results gives the default result; summing any others keeps
/// the instant of the last one.
pub proof fn law_sum_keeps_the_last_instant(s: Seq<PnL>)
    ensures
        s.len() == 0 ==> fold_sum(s) == default_pnl(),
        s.len() > 0 ==> fold_sum(s).date_time == s.last().date_time,
{
}

impl PnL {
    /// Sums a sequence of results as [`PnL::sum`] does, but reports an
    /// overflow as `None` where `sum` may not be called.
    pub fn try_sum(items: &[PnL]) -> (r: Option<PnL>)
        requires
            forall|i: int| 0 <= i < items@.len() ==> (#[trigger] items@[i]).wf(),
        ensures
            r is Some <==> fold_defined(items@),
            r matches Some(p) ==> p == fold_sum(items@),
            fold_is_exact(items@) ==> r == Some(exact_fold_sum(items@)),
            fold_overflows(items@) ==> r is None,
    {
        let mut acc = PnL::default();
        let n: usize = items.len();
        for i in 0..n
            invariant
                n == items@.len(),
                forall|j: int| 0 <= j < items@.len() ==> (#[trigger] items@[j]).wf(),
                fold_defined(items@.take(i as int)),
                !fold_overflows(items@.take(i as int)),
                acc == fold_sum(items@.take(i as int)),
                acc.wf(),
                fold_is_exact(items@.take(i as int)) ==> acc == exact_fold_sum(items@.take(i as int)),
        {
            proof {
                assert(items@.take(i + 1).drop_last() =~= items@.take(i as int));
            }
            let x = &items[i];
            match acc.try_add(x) {
                Ok(p) => {
                    acc = PnL {
                        realized: p.realized,
                        unrealized: p.unrealized,
                        initial_costs: p.initial_costs,
                        initial_income: p.initial_income,
                        date_time: x.date_time,
                    };
                },
                Err(_) => {
                    proof {
                        lemma_fold_undefined_extends(items@, i + 1);
                        if fold_is_exact(items@) {
                            lemma_fold_exact_prefix(items@, i + 1);
                        }
                    }
                    return None;
                },
            }
        }
        proof {
            assert(items@.take(n as int) =~= items@);
        }
        Some(acc)
    }
}

/// Where the fold of a prefix overflows, so does the fold of the whole.
proof fn lemma_fold_undefined_extends(s: Seq<PnL>, n: int)
    requires
        0 <= n <= s.len(),
        !fold_defined(s.take(n)),
    ensures
        !fold_defined(s),
{
    if fold_defined(s) {
        lemma_fold_defined_prefix(s, n);
    }
}

/// Adding two results is commutative wherever the additions are computed
/// without rounding: the sums in either order hold the same numbers and the
/// same instant.
pub proof fn law_exact_sum_commutes(a: PnL, b: PnL)
    requires
        a.wf(),
        b.wf(),
        a.sum_is_exact(b),
    ensures
        b.sum_is_exact(a),
        a.exact_sum_pnl(b).same_value(b.exact_sum_pnl(a)),
{
    lemma_exact_add_commutes(a.initial_costs.0, b.initial_costs.0);
    lemma_exact_add_commutes(a.initial_income.0, b.initial_income.0);
    if a.realized is Some && b.realized is Some {
        lemma_exact_add_commutes(a.realized->0, b.realized->0);
    }
    if a.unrealized is Some && b.unrealized is Some {
        lemma_exact_add_commutes(a.unrealized->0, b.unrealized->0);
    }
}

/// An exact decimal sum does not depend on the order of its operands.
proof fn lemma_exact_add_commutes(x: Decimal, y: Decimal)
    requires
        add_is_exact(x, y),
    ensures
        add_is_exact(y, x),
        exact_add(x, y).same_value(exact_add(y, x)),
{
    if x.mantissa != 0 && y.mantissa != 0 {
        assert(common_scale(x, y) == common_scale(y, x));
        assert(exact_sum(x, y) == exact_sum(y, x));
        assert(exact_add(x, y) == exact_add(y, x));
    } else {
        let (p, q) = (exact_add(x, y), exact_add(y, x));
        if x.mantissa == 0 && y.mantissa == 0 {
            assert(p.mantissa == 0 && q.mantissa == 0);
            let (pp, pq) = (pow10(p.scale as nat), pow10(q.scale as nat));
            assert(q.mantissa * pp == 0) by (nonlinear_arith)
                requires
                    q.mantissa == 0,
            ;
            assert(p.mantissa * pq == 0) by (nonlinear_arith)
                requires
                    p.mantissa == 0,
            ;
        } else {
            assert(p == q);
        }
    }
}

/// A decimal denotes the number it is.
proof fn lemma_same_value_reflexive(x: Decimal)
    ensures
        x.same_value(x),
{
}

/// Two zeros denote the same number, whatever their scales.
proof fn lemma_zeros_same_value(x: Decimal, y: Decimal)
    ensures
        x.mantissa == 0 && y.mantissa == 0 ==> x.same_value(y) && y.same_value(x),
{
    if x.mantissa == 0 && y.mantissa == 0 {
        let (px, py) = (pow10(x.scale as nat), pow10(y.scale as nat));
        assert(x.mantissa * py == 0) by (nonlinear_arith)
            requires
                x.mantissa == 0,
        ;
        assert(y.mantissa * px == 0) by (nonlinear_arith)
            requires
                y.mantissa == 0,
        ;
    }
}

/// One leg of a sum of two results, reporting overflow under `operation`.
fn add_leg(a: Option<Decimal>, b: Option<Decimal>, operation: &'static str) -> (r: Result<
    Option<Decimal>,
    DecimalError,
>)
    requires
        option_wf(a),
        option_wf(b),
    ensures
        r matches Ok(x) ==> leg_sum(a, b) == Some(x) && option_wf(x),
        r matches Err(e) ==> leg_sum(a, b) is None && e == (DecimalError::Overflow { operation }),
        leg_is_exact(a, b) ==> r is Ok && r->Ok_0 == exact_leg(a, b),
        r is Ok <==> leg_sum(b, a) is Some,
        r matches Ok(x) ==> same_optional_value(x, leg_sum(b, a)->0),
        leg_overflows(a, b) ==> r is Err,
{
    proof {
        match (a, b) {
            (Some(x), Some(y)) => {
                lemma_same_value_reflexive(x);
                lemma_zeros_same_value(x, y);
            },
            (Some(x), None) => lemma_same_value_reflexive(x),
            (None, Some(y)) => lemma_same_value_reflexive(y),
            _ => {},
        }
    }
    match (a, b) {
        (Some(x), Some(y)) => match d_add(x, y, operation) {
            Ok(s) => Ok(Some(s)),
            Err(e) => Err(e),
        },
        (Some(x), None) => Ok(Some(x)),
        (None, Some(y)) => Ok(Some(y)),
        (None, None) => Ok(None),
    }
}

} // verus!
