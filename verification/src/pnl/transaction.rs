//! A single option transaction and the realized result it carries.

use vstd::prelude::*;
use crate::error::TransactionError;
use crate::model::datetime::{utc_now, UtcDateTime};
use crate::model::decimal::{
    add_is_exact, add_overflows, checked_mul, mul_overflows, decimal_checked_add, decimal_checked_mul, decimal_checked_sub,
    exact_add, exact_mul, exact_sub, mul_is_exact, sub_is_exact, Decimal,
};
use crate::model::positive::{positive_checked_add, positive_checked_sub, Positive};
use crate::model::types::{OptionStyle, OptionType, Side, TradeStatus};
use crate::pnl::utils::PnL;

verus! {

/// The money that leaves on a trade that pays: `-(premium + fees) *
/// quantity`. `None` where an addition or the product overflows.
pub open spec fn outflow(premium: Positive, fees: Positive, quantity: Positive) -> Option<Decimal> {
    match decimal_checked_add(premium.0, fees.0) {
        Some(paid) => decimal_checked_mul(paid.negated(), quantity.0),
        None => None,
    }
}

/// The money that comes in on a trade that receives: `(premium - fees) *
/// quantity`. `None` where the fees exceed the premium, or where the
/// difference or the product overflows.
pub open spec fn inflow(premium: Positive, fees: Positive, quantity: Positive) -> Option<Decimal> {
    match decimal_checked_sub(premium.0, fees.0) {
        Some(net) => if net.mantissa >= 0 {
            decimal_checked_mul(net, quantity.0)
        } else {
            None
        },
        None => None,
    }
}

/// `-(premium + fees) * quantity` leaves the decimal range: the sum, or the
/// product of the sum and the quantity, is at least `2^96` in magnitude.
pub open spec fn outflow_overflows(premium: Positive, fees: Positive, quantity: Positive) -> bool {
    ||| add_overflows(premium.0, fees.0)
    ||| (decimal_checked_add(premium.0, fees.0) matches Some(paid) && mul_overflows(
        paid.negated(),
        quantity.0,
    ))
}

/// `(premium - fees) * quantity` leaves the decimal range: the product of
/// the difference and the quantity is at least `2^96` in magnitude. (The
/// difference of two amounts cannot leave it.)
pub open spec fn inflow_overflows(premium: Positive, fees: Positive, quantity: Positive) -> bool {
    decimal_checked_sub(premium.0, fees.0) matches Some(net) && mul_overflows(net, quantity.0)
}

/// `-(premium + fees) * quantity` is computed without rounding.
pub open spec fn outflow_is_exact(premium: Positive, fees: Positive, quantity: Positive) -> bool {
    add_is_exact(premium.0, fees.0) && mul_is_exact(exact_add(premium.0, fees.0).negated(), quantity.0)
}

/// `-(premium + fees) * quantity` where it is computed without rounding.
pub open spec fn exact_outflow(premium: Positive, fees: Positive, quantity: Positive) -> Decimal {
    exact_mul(exact_add(premium.0, fees.0).negated(), quantity.0)
}

/// `(premium - fees) * quantity` is computed without rounding, the fees
/// not exceeding the premium.
pub open spec fn inflow_is_exact(premium: Positive, fees: Positive, quantity: Positive) -> bool {
    &&& sub_is_exact(premium.0, fees.0)
    &&& exact_sub(premium.0, fees.0).mantissa >= 0
    &&& mul_is_exact(exact_sub(premium.0, fees.0), quantity.0)
}

/// `(premium - fees) * quantity` where it is computed without rounding.
pub open spec fn exact_inflow(premium: Positive, fees: Positive, quantity: Positive) -> Decimal {
    exact_mul(exact_sub(premium.0, fees.0), quantity.0)
}

/// Whether a trade with this status and side pays money out: opening a
/// long position and closing (or expiring, exercising, being assigned on)
/// a short one pay; the other two receive.
pub open spec fn pays(status: TradeStatus, side: Side) -> bool {
    if status is Open {
        side == Side::Long
    } else {
        side == Side::Short
    }
}

/// Closing a position reverses the direction of the money: opening a long
/// position pays what closing a short one pays, and opening a short position
/// receives what closing a long one receives, for the same premium, fees and
/// quantity.
pub proof fn law_closing_swaps_sides(opening: TransactionView, closing: TransactionView)
    requires
        opening.status is Open,
        !(closing.status is Open),
        opening.side != closing.side,
        opening.premium == closing.premium,
        opening.fees == closing.fees,
        opening.quantity == closing.quantity,
    ensures
        opening.realized() == closing.realized(),
{
}

/// The message of the error for an option type other than European.
pub open spec fn unsupported_message() -> Seq<char> {
    "Unsupported option type in Transaction"@
}

/// The contents of a transaction.
pub struct TransactionView {
    pub status: TradeStatus,
    pub date_time: Option<UtcDateTime>,
    pub option_type: OptionType,
    pub side: Side,
    pub option_style: OptionStyle,
    pub quantity: Positive,
    pub premium: Positive,
    pub fees: Positive,
    pub underlying_price: Option<Positive>,
    pub days_to_expiration: Option<Positive>,
    pub implied_volatility: Option<Positive>,
}

impl TransactionView {
    /// The amounts are well formed.
    pub open spec fn wf(self) -> bool {
        &&& self.quantity.wf()
        &&& self.premium.wf()
        &&& self.fees.wf()
    }

    /// The realized result is computed without rounding.
    pub open spec fn realized_is_exact(self) -> bool {
        if pays(self.status, self.side) {
            outflow_is_exact(self.premium, self.fees, self.quantity)
        } else {
            inflow_is_exact(self.premium, self.fees, self.quantity)
        }
    }

    /// The realized result where it is computed without rounding.
    pub open spec fn exact_realized(self) -> Decimal {
        if pays(self.status, self.side) {
            exact_outflow(self.premium, self.fees, self.quantity)
        } else {
            exact_inflow(self.premium, self.fees, self.quantity)
        }
    }

    /// The realized result leaves the decimal range.
    pub open spec fn realized_overflows(self) -> bool {
        if pays(self.status, self.side) {
            outflow_overflows(self.premium, self.fees, self.quantity)
        } else {
            inflow_overflows(self.premium, self.fees, self.quantity)
        }
    }

    /// The realized result of the transaction: what leaves if it pays,
    /// what comes in otherwise.
    pub open spec fn realized(self) -> Option<Decimal> {
        if pays(self.status, self.side) {
            outflow(self.premium, self.fees, self.quantity)
        } else {
            inflow(self.premium, self.fees, self.quantity)
        }
    }
}

/// An option trade: its status, kind, direction, size, premium and fees,
/// and the market at the time it was made.
#[derive(Clone, Debug, PartialEq)]
pub struct Transaction {
    status: TradeStatus,
    date_time: Option<UtcDateTime>,
    option_type: OptionType,
    side: Side,
    option_style: OptionStyle,
    quantity: Positive,
    premium: Positive,
    fees: Positive,
    underlying_price: Option<Positive>,
    days_to_expiration: Option<Positive>,
    implied_volatility: Option<Positive>,
}

impl View for Transaction {
    type V = TransactionView;

    closed spec fn view(&self) -> TransactionView {
        TransactionView {
            status: self.status,
            date_time: self.date_time,
            option_type: self.option_type,
            side: self.side,
            option_style: self.option_style,
            quantity: self.quantity,
            premium: self.premium,
            fees: self.fees,
            underlying_price: self.underlying_price,
            days_to_expiration: self.days_to_expiration,
            implied_volatility: self.implied_volatility,
        }
    }
}

impl Transaction {
    /// Builds a transaction from all its parts.
    #[allow(clippy::too_many_arguments)]
    pub fn new(
        status: TradeStatus,
        date_time: Option<UtcDateTime>,
        option_type: OptionType,
        side: Side,
        option_style: OptionStyle,
        quantity: Positive,
        premium: Positive,
        fees: Positive,
        underlying_price: Option<Positive>,
        days_to_expiration: Option<Positive>,
        implied_volatility: Option<Positive>,
    ) -> (r: Transaction)
        ensures
            r@ == (TransactionView {
                status,
                date_time,
                option_type,
                side,
                option_style,
                quantity,
                premium,
                fees,
                underlying_price,
                days_to_expiration,
                implied_volatility,
            }),
    {
        Transaction {
            status,
            date_time,
            option_type,
            side,
            option_style,
            quantity,
            premium,
            fees,
            underlying_price,
            days_to_expiration,
            implied_volatility,
        }
    }

    /// The life-cycle state of the trade.
    pub fn status(&self) -> (r: TradeStatus)
        ensures
            r == self@.status,
    {
        match &self.status {
            TradeStatus::Open => TradeStatus::Open,
            TradeStatus::Closed => TradeStatus::Closed,
            TradeStatus::Expired => TradeStatus::Expired,
            TradeStatus::Exercised => TradeStatus::Exercised,
            TradeStatus::Assigned => TradeStatus::Assigned,
            TradeStatus::Other(name) => TradeStatus::Other(name.clone()),
        }
    }

    /// When the transaction took place, if known.
    pub fn date_time(&self) -> (r: Option<UtcDateTime>)
        ensures
            r == self@.date_time,
    {
        self.date_time
    }

    /// The option type.
    pub fn option_type(&self) -> (r: OptionType)
        ensures
            r == self@.option_type,
    {
        self.option_type
    }

    /// The side, long or short.
    pub fn side(&self) -> (r: Side)
        ensures
            r == self@.side,
    {
        self.side
    }

    /// The option style, call or put.
    pub fn option_style(&self) -> (r: OptionStyle)
        ensures
            r == self@.option_style,
    {
        self.option_style
    }

    /// The number of contracts.
    pub fn quantity(&self) -> (r: Positive)
        ensures
            r == self@.quantity,
    {
        self.quantity
    }

    /// The premium per contract.
    pub fn premium(&self) -> (r: Positive)
        ensures
            r == self@.premium,
    {
        self.premium
    }

    /// The fees per contract.
    pub fn fees(&self) -> (r: Positive)
        ensures
            r == self@.fees,
    {
        self.fees
    }

    /// The price of the underlying, if known.
    pub fn underlying_price(&self) -> (r: Option<Positive>)
        ensures
            r == self@.underlying_price,
    {
        self.underlying_price
    }

    /// The days left to expiration, if known.
    pub fn days_to_expiration(&self) -> (r: Option<Positive>)
        ensures
            r == self@.days_to_expiration,
    {
        self.days_to_expiration
    }

    /// The implied volatility, if known.
    pub fn implied_volatility(&self) -> (r: Option<Positive>)
        ensures
            r == self@.implied_volatility,
    {
        self.implied_volatility
    }

    /// Records a new implied volatility; nothing else changes.
    pub fn update_implied_volatility(&mut self, iv: Positive)
        ensures
            final(self)@ == (TransactionView { implied_volatility: Some(iv), ..old(self)@ }),
    {
        self.implied_volatility = Some(iv);
    }

    /// Records a new underlying price; nothing else changes.
    pub fn update_underlying_price(&mut self, price: Positive)
        ensures
            final(self)@ == (TransactionView { underlying_price: Some(price), ..old(self)@ }),
    {
        self.underlying_price = Some(price);
    }

    /// Records new days to expiration; nothing else changes.
    pub fn update_days_to_expiration(&mut self, days: Positive)
        ensures
            final(self)@ == (TransactionView { days_to_expiration: Some(days), ..old(self)@ }),
    {
        self.days_to_expiration = Some(days);
    }

    /// The realized result of the transaction. Only European options are
    /// supported; any other type is an error. An open long position has paid
    /// `-(premium + fees) * quantity`, an open short one received
    /// `(premium - fees) * quantity`; once closed, expired, exercised or
    /// assigned the two sides swap. The result carries the premium as its
    /// cost, the fees as its income, and the present instant.
    pub fn pnl(&self) -> (r: Result<PnL, TransactionError>)
        requires
            self@.wf(),
            self@.option_type == OptionType::European ==> self@.realized() is Some,
        ensures
            r is Ok <==> self@.option_type == OptionType::European,
            r matches Ok(p) ==> {
                &&& p.realized == Some(self@.realized()->0)
                &&& p.unrealized is None
                &&& p.initial_costs == self@.premium
                &&& p.initial_income == self@.fees
                &&& p.wf()
                &&& self@.realized_is_exact() ==> p.realized == Some(self@.exact_realized())
            },
            r matches Err(e) ==> e.message@ == unsupported_message(),
    {
        match self.status {
            TradeStatus::Open => self.calculate_open_pnl(),
            _ => self.calculate_closed_pnl(),
        }
    }

    /// The result of the transaction as [`Transaction::pnl`] gives it, or
    /// `None` where its arithmetic overflows or the fees of a receiving
    /// trade exceed its premium, where `pnl` may not be called.
    pub fn try_pnl(&self) -> (r: Option<Result<PnL, TransactionError>>)
        requires
            self@.wf(),
        ensures
            r is None <==> (self@.option_type == OptionType::European && self@.realized() is None),
            r matches Some(Ok(p)) ==> {
                &&& self@.option_type == OptionType::European
                &&& p.realized == Some(self@.realized()->0)
                &&& p.unrealized is None
                &&& p.initial_costs == self@.premium
                &&& p.initial_income == self@.fees
                &&& p.wf()
                &&& self@.realized_is_exact() ==> p.realized == Some(self@.exact_realized())
            },
            self@.realized_is_exact() ==> r is Some,
            r matches Some(Err(e)) ==> self@.option_type != OptionType::European
                && e.message@ == unsupported_message(),
            self@.option_type == OptionType::European && self@.realized_overflows() ==> r is None,
    {
        if self.option_type == OptionType::European {
            let paying = match self.status {
                TradeStatus::Open => self.side == Side::Long,
                _ => self.side == Side::Short,
            };
            let realized = if paying {
                checked_outflow(self.premium, self.fees, self.quantity)
            } else {
                checked_inflow(self.premium, self.fees, self.quantity)
            };
            if realized.is_none() {
                return None;
            }
        }
        Some(self.pnl())
    }

    /// The result of a transaction that is still open: a long position has
    /// paid, a short one has received.
    fn calculate_open_pnl(&self) -> (r: Result<PnL, TransactionError>)
        requires
            self@.wf(),
            self@.status is Open,
            self@.option_type == OptionType::European ==> self@.realized() is Some,
        ensures
            r is Ok <==> self@.option_type == OptionType::European,
            r matches Ok(p) ==> {
                &&& p.realized == Some(self@.realized()->0)
                &&& p.unrealized is None
                &&& p.initial_costs == self@.premium
                &&& p.initial_income == self@.fees
                &&& p.wf()
                &&& self@.realized_is_exact() ==> p.realized == Some(self@.exact_realized())
            },
            r matches Err(e) ==> e.message@ == unsupported_message(),
    {
        if self.option_type != OptionType::European {
            return Err(unsupported_type_error());
        }
        let realized = match self.side {
            Side::Long => paid_amount(self.premium, self.fees, self.quantity),
            Side::Short => received_amount(self.premium, self.fees, self.quantity),
        };
        Ok(PnL::new(Some(realized), None, self.premium, self.fees, utc_now()))
    }

    /// The result of a transaction that is closed, expired, exercised or
    /// assigned: a short position has paid, a long one has received.
    fn calculate_closed_pnl(&self) -> (r: Result<PnL, TransactionError>)
        requires
            self@.wf(),
            !(self@.status is Open),
            self@.option_type == OptionType::European ==> self@.realized() is Some,
        ensures
            r is Ok <==> self@.option_type == OptionType::European,
            r matches Ok(p) ==> {
                &&& p.realized == Some(self@.realized()->0)
                &&& p.unrealized is None
                &&& p.initial_costs == self@.premium
                &&& p.initial_income == self@.fees
                &&& p.wf()
                &&& self@.realized_is_exact() ==> p.realized == Some(self@.exact_realized())
            },
            r matches Err(e) ==> e.message@ == unsupported_message(),
    {
        if self.option_type != OptionType::European {
            return Err(unsupported_type_error());
        }
        let realized = match self.side {
            Side::Short => paid_amount(self.premium, self.fees, self.quantity),
            Side::Long => received_amount(self.premium, self.fees, self.quantity),
        };
        Ok(PnL::new(Some(realized), None, self.premium, self.fees, utc_now()))
    }
}

/// The error for an option type other than European.
fn unsupported_type_error() -> (e: TransactionError)
    ensures
        e.message@ == unsupported_message(),
{
    let message = String::from_str("Unsupported option type in Transaction");
    TransactionError { message }
}

/// `-(premium + fees) * quantity`, or `None` where it overflows.
fn checked_outflow(premium: Positive, fees: Positive, quantity: Positive) -> (r: Option<Decimal>)
    requires
        premium.wf(),
        fees.wf(),
        quantity.wf(),
    ensures
        r == outflow(premium, fees, quantity),
        r matches Some(d) ==> d.wf(),
        outflow_is_exact(premium, fees, quantity) ==> r == Some(exact_outflow(premium, fees, quantity)),
        outflow_overflows(premium, fees, quantity) ==> r is None,
{
    match positive_checked_add(premium, fees) {
        Ok(paid) => checked_mul(paid.to_dec().negate(), quantity.to_dec()),
        Err(_) => None,
    }
}

/// `(premium - fees) * quantity`, or `None` where the fees exceed the
/// premium or the arithmetic overflows.
fn checked_inflow(premium: Positive, fees: Positive, quantity: Positive) -> (r: Option<Decimal>)
    requires
        premium.wf(),
        fees.wf(),
        quantity.wf(),
    ensures
        r == inflow(premium, fees, quantity),
        r matches Some(d) ==> d.wf(),
        inflow_is_exact(premium, fees, quantity) ==> r == Some(exact_inflow(premium, fees, quantity)),
        inflow_overflows(premium, fees, quantity) ==> r is None,
{
    match positive_checked_sub(premium, fees) {
        Ok(net) => checked_mul(net.to_dec(), quantity.to_dec()),
        Err(_) => None,
    }
}

/// `-(premium + fees) * quantity`.
fn paid_amount(premium: Positive, fees: Positive, quantity: Positive) -> (r: Decimal)
    requires
        premium.wf(),
        fees.wf(),
        quantity.wf(),
        outflow(premium, fees, quantity) is Some,
    ensures
        Some(r) == outflow(premium, fees, quantity),
        r.wf(),
        outflow_is_exact(premium, fees, quantity) ==> r == exact_outflow(premium, fees, quantity),
{
    match checked_outflow(premium, fees, quantity) {
        Some(d) => d,
        None => {
            proof {
                assert(false);
            }
            Decimal::zero()
        },
    }
}

/// `(premium - fees) * quantity`.
fn received_amount(premium: Positive, fees: Positive, quantity: Positive) -> (r: Decimal)
    requires
        premium.wf(),
        fees.wf(),
        quantity.wf(),
        inflow(premium, fees, quantity) is Some,
    ensures
        Some(r) == inflow(premium, fees, quantity),
        r.wf(),
        inflow_is_exact(premium, fees, quantity) ==> r == exact_inflow(premium, fees, quantity),
{
    match checked_inflow(premium, fees, quantity) {
        Some(d) => d,
        None => {
            proof {
                assert(false);
            }
            Decimal::zero()
        },
    }
}

} // verus!
