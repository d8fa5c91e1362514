//! The records of a P&L simulation: one step, the summary metrics, and a
//! document that groups the steps of a run with its parameters.

use vstd::prelude::*;
use crate::model::datetime::{utc_now, UtcDateTime};
use crate::model::decimal::Decimal;
use crate::model::positive::Positive;
use crate::model::text::{
    append_bool, append_digits, bool_text, decimal_round_dp, decimal_text, decimal_to_text,
    law_rounded_dp_is_near, nat_digits, positive_round_to, positive_text, positive_to_text,
    rounded_dp, rounds_to_places,
};
use crate::pnl::utils::{default_pnl, PnL};

verus! {

/// One step of a multi-step P&L simulation of a strategy.
#[derive(Clone, Debug, PartialEq)]
pub struct PnLMetricsStep {
    /// The profit and loss of this step.
    pub pnl: PnL,
    /// Whether the step ended in a win.
    pub win: bool,
    /// The position of the step in the simulation.
    pub step_number: u32,
    /// How long the step lasted.
    pub step_duration: Positive,
    /// The largest unrealized P&L seen during the step.
    pub max_unrealized_pnl: Positive,
    /// The smallest unrealized P&L seen during the step.
    pub min_unrealized_pnl: Positive,
    /// Winning steps so far.
    pub winning_steps: u32,
    /// Losing steps so far.
    pub losing_steps: u32,
    /// The price at the start of the step.
    pub initial_price: Positive,
    /// The price at the end of the step.
    pub final_price: Positive,
    /// The strikes of the strategy's options.
    pub strikes: Vec<Positive>,
    /// The volumes of the options at the start of the step.
    pub initial_volumes: Vec<Positive>,
    /// The volumes of the options at the end of the step.
    pub final_volumes: Vec<Positive>,
    /// The delta adjustments made during the step.
    pub delta_adjustments: Positive,
}

/// Whether a positive amount is zero, written as `0` with no decimals.
pub open spec fn is_plain_zero(p: Positive) -> bool {
    p.0.mantissa == 0 && p.0.scale == 0
}

/// Whether a decimal is zero, written as `0` with no decimals.
pub open spec fn is_zero_decimal(d: Decimal) -> bool {
    d.mantissa == 0 && d.scale == 0
}

impl Default for PnLMetricsStep {
    /// An empty step: default P&L, no win, every count and amount zero, no
    /// strikes or volumes.
    fn default() -> (r: PnLMetricsStep)
        ensures
            r.pnl == default_pnl(),
            !r.win,
            r.step_number == 0,
            is_plain_zero(r.step_duration),
            is_plain_zero(r.max_unrealized_pnl),
            is_plain_zero(r.min_unrealized_pnl),
            r.winning_steps == 0,
            r.losing_steps == 0,
            is_plain_zero(r.initial_price),
            is_plain_zero(r.final_price),
            r.strikes@.len() == 0,
            r.initial_volumes@.len() == 0,
            r.final_volumes@.len() == 0,
            is_plain_zero(r.delta_adjustments),
    {
        PnLMetricsStep {
            pnl: PnL::default(),
            win: false,
            step_number: 0,
            step_duration: Positive::zero(),
            max_unrealized_pnl: Positive::zero(),
            min_unrealized_pnl: Positive::zero(),
            winning_steps: 0,
            losing_steps: 0,
            initial_price: Positive::zero(),
            final_price: Positive::zero(),
            strikes: Vec::new(),
            initial_volumes: Vec::new(),
            final_volumes: Vec::new(),
            delta_adjustments: Positive::zero(),
        }
    }
}

/// Every amount in the sequence is a well-formed positive amount.
pub open spec fn all_wf(values: Seq<Positive>) -> bool {
    forall|i: int| 0 <= i < values.len() ==> #[trigger] values[i].wf()
}

/// The amounts rounded to three decimal places and written as decimals,
/// separated by `, `.
pub open spec fn rounded_list(values: Seq<Positive>) -> Seq<char>
    decreases values.len(),
{
    if values.len() == 0 {
        Seq::empty()
    } else if values.len() == 1 {
        decimal_text(rounded_dp(values[0].0, 3))
    } else {
        rounded_list(values.drop_last()) + ", "@ + decimal_text(rounded_dp(values.last().0, 3))
    }
}

/// A positive amount rounded to three decimal places and written out.
pub open spec fn rounded_text(p: Positive) -> Seq<char> {
    positive_text(Positive(rounded_dp(p.0, 3)))
}

/// The counts and amounts of a step as `name: value` pairs, from `win` to
/// `final_price`.
pub open spec fn step_fields_text(step: PnLMetricsStep) -> Seq<char> {
    ", win: "@ + bool_text(step.win) + ", step_number: "@ + nat_digits(step.step_number as nat)
        + ", step_duration: "@ + rounded_text(step.step_duration) + ", max_unrealized_pnl: "@
        + rounded_text(step.max_unrealized_pnl) + ", min_unrealized_pnl: "@ + rounded_text(
        step.min_unrealized_pnl,
    ) + ", winning_steps: "@ + nat_digits(step.winning_steps as nat) + ", losing_steps: "@
        + nat_digits(step.losing_steps as nat) + ", initial_price: "@ + rounded_text(
        step.initial_price,
    ) + ", final_price: "@ + rounded_text(step.final_price)
}

/// The strikes and volumes of a step as bracketed lists, and its delta
/// adjustments.
pub open spec fn step_lists_text(step: PnLMetricsStep) -> Seq<char> {
    ", strikes: ["@ + rounded_list(step.strikes@) + "], initial_volumes: ["@ + rounded_list(
        step.initial_volumes@,
    ) + "], final_volumes: ["@ + rounded_list(step.final_volumes@) + "], delta_adjustments: "@
        + positive_text(step.delta_adjustments)
}

/// The description of a step whose P&L reads `pnl_text`.
pub open spec fn step_text(step: PnLMetricsStep, pnl_text: Seq<char>) -> Seq<char> {
    "PnLMetricsStep: {"@ + pnl_text + step_fields_text(step) + step_lists_text(step) + "}"@
}

/// `, ` and then `rest`.
pub open spec fn comma_then(rest: Seq<char>) -> Seq<char> {
    seq![',', ' '] + rest
}

/// `text` holds `label`, then the text of an amount that is `x` rounded to
/// three decimal places, then `, `.
pub open spec fn shows_rounded(text: Seq<char>, label: Seq<char>, x: Positive) -> bool {
    exists|pre: Seq<char>, y: Positive, post: Seq<char>|
        #![trigger rounds_to_places(y.0, x.0, 3), pre + label, comma_then(post)]
        {
            &&& text == (pre + label) + (positive_text(y) + comma_then(post))
            &&& rounds_to_places(y.0, x.0, 3)
        }
}

/// A text split as `pre`, `label`, the text of `y`, and `, ` with what
/// follows, shows `x` rounded to three places after `label` when `y` is `x`
/// rounded so.
proof fn lemma_shows_rounded(
    text: Seq<char>,
    label: Seq<char>,
    x: Positive,
    pre: Seq<char>,
    y: Positive,
    post: Seq<char>,
)
    requires
        text == (pre + label) + (positive_text(y) + comma_then(post)),
        rounds_to_places(y.0, x.0, 3),
    ensures
        shows_rounded(text, label, x),
{
}

/// A text laid out as a head, five labelled amounts and what follows them
/// can be split before and after each amount.
proof fn lemma_step_layout(
    t: Seq<char>,
    head: Seq<char>,
    l1: Seq<char>,
    t1: Seq<char>,
    r2: Seq<char>,
    t2: Seq<char>,
    r3: Seq<char>,
    t3: Seq<char>,
    rc: Seq<char>,
    l4: Seq<char>,
    t4: Seq<char>,
    r5: Seq<char>,
    t5: Seq<char>,
    rl: Seq<char>,
)
    requires
        t == head + l1 + t1 + comma_then(r2) + t2 + comma_then(r3) + t3 + comma_then(rc) + l4 + t4
            + comma_then(r5) + t5 + comma_then(rl),
    ensures
        t == (head + l1) + (t1 + comma_then(r2 + t2 + comma_then(r3) + t3 + comma_then(rc) + l4
            + t4 + comma_then(r5) + t5 + comma_then(rl))),
        t == (head + l1 + t1 + comma_then(r2)) + (t2 + comma_then(r3 + t3 + comma_then(rc) + l4
            + t4 + comma_then(r5) + t5 + comma_then(rl))),
        t == (head + l1 + t1 + comma_then(r2) + t2 + comma_then(r3)) + (t3 + comma_then(rc + l4
            + t4 + comma_then(r5) + t5 + comma_then(rl))),
        t == (head + l1 + t1 + comma_then(r2) + t2 + comma_then(r3) + t3 + comma_then(rc) + l4) + (
        t4 + comma_then(r5 + t5 + comma_then(rl))),
        t == (head + l1 + t1 + comma_then(r2) + t2 + comma_then(r3) + t3 + comma_then(rc) + l4 + t4
            + comma_then(r5)) + (t5 + comma_then(rl)),
{
    let c = seq![',', ' '];
    assert(t =~= (head + l1) + (t1 + comma_then(r2 + t2 + comma_then(r3) + t3 + comma_then(rc)
        + l4 + t4 + comma_then(r5) + t5 + comma_then(rl))));
    assert(t =~= (head + l1 + t1 + comma_then(r2)) + (t2 + comma_then(r3 + t3 + comma_then(rc)
        + l4 + t4 + comma_then(r5) + t5 + comma_then(rl))));
    assert(t =~= (head + l1 + t1 + comma_then(r2) + t2 + comma_then(r3)) + (t3 + comma_then(rc
        + l4 + t4 + comma_then(r5) + t5 + comma_then(rl))));
    assert(t =~= (head + l1 + t1 + comma_then(r2) + t2 + comma_then(r3) + t3 + comma_then(rc)
        + l4) + (t4 + comma_then(r5 + t5 + comma_then(rl))));
    assert(t =~= (head + l1 + t1 + comma_then(r2) + t2 + comma_then(r3) + t3 + comma_then(rc)
        + l4 + t4 + comma_then(r5)) + (t5 + comma_then(rl)));
}

/// The start of a step's description: its name, the P&L text, the win flag
/// and the step number.
pub open spec fn step_head(step: PnLMetricsStep, pnl_text: Seq<char>) -> Seq<char> {
    "PnLMetricsStep: {"@ + pnl_text + step_flags(step)
}

/// The win flag and the step number in a step's description.
pub open spec fn step_flags(step: PnLMetricsStep) -> Seq<char> {
    ", win: "@ + bool_text(step.win) + ", step_number: "@ + nat_digits(step.step_number as nat)
}

/// The winning and losing counts of a step's description, after their `, `.
pub open spec fn step_counts_rest(step: PnLMetricsStep) -> Seq<char> {
    "winning_steps: "@ + nat_digits(step.winning_steps as nat) + ", losing_steps: "@ + nat_digits(
        step.losing_steps as nat,
    )
}

/// The lists and the rest of a step's description, after their `, `.
pub open spec fn step_lists_rest(step: PnLMetricsStep) -> Seq<char> {
    "strikes: ["@ + rounded_list(step.strikes@) + "], initial_volumes: ["@ + rounded_list(
        step.initial_volumes@,
    ) + "], final_volumes: ["@ + rounded_list(step.final_volumes@) + "], delta_adjustments: "@
        + positive_text(step.delta_adjustments) + "}"@
}

/// The counts and amounts of a step's description, with `, ` split off
/// before the labels that follow an amount.
proof fn lemma_step_fields_layout(step: PnLMetricsStep)
    ensures
        step_fields_text(step) == step_flags(step) + ", step_duration: "@ + rounded_text(step.step_duration) + comma_then(
            "max_unrealized_pnl: "@,
        ) + rounded_text(step.max_unrealized_pnl) + comma_then("min_unrealized_pnl: "@)
            + rounded_text(step.min_unrealized_pnl) + comma_then(step_counts_rest(step))
            + ", initial_price: "@ + rounded_text(step.initial_price) + comma_then(
            "final_price: "@,
        ) + rounded_text(step.final_price),
{
    reveal_strlit(", max_unrealized_pnl: ");
    reveal_strlit("max_unrealized_pnl: ");
    reveal_strlit(", min_unrealized_pnl: ");
    reveal_strlit("min_unrealized_pnl: ");
    reveal_strlit(", winning_steps: ");
    reveal_strlit("winning_steps: ");
    reveal_strlit(", final_price: ");
    reveal_strlit("final_price: ");
    let (a, b, c, d) = (
        ", max_unrealized_pnl: "@,
        ", min_unrealized_pnl: "@,
        ", winning_steps: "@ + nat_digits(step.winning_steps as nat) + ", losing_steps: "@
            + nat_digits(step.losing_steps as nat),
        ", final_price: "@,
    );
    assert(a =~= comma_then("max_unrealized_pnl: "@));
    assert(b =~= comma_then("min_unrealized_pnl: "@));
    assert(c =~= comma_then(step_counts_rest(step)));
    assert(d =~= comma_then("final_price: "@));
    assert(step_fields_text(step) =~= step_flags(step) + ", step_duration: "@ + rounded_text(
        step.step_duration,
    ) + comma_then("max_unrealized_pnl: "@) + rounded_text(step.max_unrealized_pnl) + comma_then(
        "min_unrealized_pnl: "@,
    ) + rounded_text(step.min_unrealized_pnl) + comma_then(step_counts_rest(step))
        + ", initial_price: "@ + rounded_text(step.initial_price) + comma_then("final_price: "@)
        + rounded_text(step.final_price));
}

/// The lists of a step's description and its closing brace.
proof fn lemma_step_lists_layout(step: PnLMetricsStep)
    ensures
        step_lists_text(step) + "}"@ == comma_then(step_lists_rest(step)),
{
    reveal_strlit(", strikes: [");
    reveal_strlit("strikes: [");
    assert(step_lists_text(step) + "}"@ =~= comma_then(step_lists_rest(step)));
}

/// A description made of its opening, the P&L text, the fields and the
/// lists, with the fields and the lists each laid out, is laid out as a
/// whole.
proof fn lemma_compose(
    t: Seq<char>,
    open: Seq<char>,
    pnl_text: Seq<char>,
    flags: Seq<char>,
    fields: Seq<char>,
    lists: Seq<char>,
    close: Seq<char>,
    middle: Seq<char>,
    rest: Seq<char>,
)
    requires
        t == open + pnl_text + fields + lists + close,
        fields == flags + middle,
        lists + close == comma_then(rest),
    ensures
        t == (open + pnl_text + flags) + middle + comma_then(rest),
{
    assert(t =~= (open + pnl_text + flags) + middle + comma_then(rest));
}

/// The middle of a description, spelled out.
proof fn lemma_middle(
    head: Seq<char>,
    mid: Seq<char>,
    rl: Seq<char>,
    l1: Seq<char>,
    t1: Seq<char>,
    r2: Seq<char>,
    t2: Seq<char>,
    r3: Seq<char>,
    t3: Seq<char>,
    rc: Seq<char>,
    l4: Seq<char>,
    t4: Seq<char>,
    r5: Seq<char>,
    t5: Seq<char>,
)
    requires
        mid == l1 + t1 + comma_then(r2) + t2 + comma_then(r3) + t3 + comma_then(rc) + l4 + t4
            + comma_then(r5) + t5,
    ensures
        head + mid + comma_then(rl) == head + l1 + t1 + comma_then(r2) + t2 + comma_then(r3) + t3
            + comma_then(rc) + l4 + t4 + comma_then(r5) + t5 + comma_then(rl),
        head + mid == head + l1 + t1 + comma_then(r2) + t2 + comma_then(r3) + t3 + comma_then(rc)
            + l4 + t4 + comma_then(r5) + t5,
{
    assert(head + mid =~= head + l1 + t1 + comma_then(r2) + t2 + comma_then(r3) + t3 + comma_then(
        rc,
    ) + l4 + t4 + comma_then(r5) + t5);
    assert(head + mid + comma_then(rl) =~= head + l1 + t1 + comma_then(r2) + t2 + comma_then(r3)
        + t3 + comma_then(rc) + l4 + t4 + comma_then(r5) + t5 + comma_then(rl));
}

/// The labels that follow an amount begin with `, `.
proof fn lemma_labels()
    ensures
        ", max_unrealized_pnl: "@ == comma_then("max_unrealized_pnl: "@),
        ", min_unrealized_pnl: "@ == comma_then("min_unrealized_pnl: "@),
        ", final_price: "@ == comma_then("final_price: "@),
{
    reveal_strlit(", max_unrealized_pnl: ");
    reveal_strlit("max_unrealized_pnl: ");
    reveal_strlit(", min_unrealized_pnl: ");
    reveal_strlit("min_unrealized_pnl: ");
    reveal_strlit(", final_price: ");
    reveal_strlit("final_price: ");
    assert(", max_unrealized_pnl: "@ =~= comma_then("max_unrealized_pnl: "@));
    assert(", min_unrealized_pnl: "@ =~= comma_then("min_unrealized_pnl: "@));
    assert(", final_price: "@ =~= comma_then("final_price: "@));
}

/// In the description of a step, the duration, the largest and smallest
/// unrealized P&L and the initial and final prices each stand after their
/// name, written as the amount rounded to three decimal places.
pub proof fn law_step_amounts_rounded(step: PnLMetricsStep, pnl_text: Seq<char>)
    ensures
        shows_rounded(step_text(step, pnl_text), ", step_duration: "@, step.step_duration),
        shows_rounded(step_text(step, pnl_text), ", max_unrealized_pnl: "@, step.max_unrealized_pnl),
        shows_rounded(step_text(step, pnl_text), ", min_unrealized_pnl: "@, step.min_unrealized_pnl),
        shows_rounded(step_text(step, pnl_text), ", initial_price: "@, step.initial_price),
        shows_rounded(step_text(step, pnl_text), ", final_price: "@, step.final_price),
{
    let t = step_text(step, pnl_text);
    let head = step_head(step, pnl_text);
    let y1 = Positive(rounded_dp(step.step_duration.0, 3));
    let y2 = Positive(rounded_dp(step.max_unrealized_pnl.0, 3));
    let y3 = Positive(rounded_dp(step.min_unrealized_pnl.0, 3));
    let y4 = Positive(rounded_dp(step.initial_price.0, 3));
    let y5 = Positive(rounded_dp(step.final_price.0, 3));
    let t1 = rounded_text(step.step_duration);
    let t2 = rounded_text(step.max_unrealized_pnl);
    let t3 = rounded_text(step.min_unrealized_pnl);
    let t4 = rounded_text(step.initial_price);
    let t5 = rounded_text(step.final_price);
    let l1 = ", step_duration: "@;
    let l4 = ", initial_price: "@;
    let r2 = "max_unrealized_pnl: "@;
    let r3 = "min_unrealized_pnl: "@;
    let rc = step_counts_rest(step);
    let r5 = "final_price: "@;
    let rl = step_lists_rest(step);
    lemma_step_fields_layout(step);
    lemma_step_lists_layout(step);
    lemma_labels();
    let mid = l1 + t1 + comma_then(r2) + t2 + comma_then(r3) + t3 + comma_then(rc) + l4 + t4
        + comma_then(r5) + t5;
    lemma_middle(step_flags(step), mid, rl, l1, t1, r2, t2, r3, t3, rc, l4, t4, r5, t5);
    lemma_compose(
        t,
        "PnLMetricsStep: {"@,
        pnl_text,
        step_flags(step),
        step_fields_text(step),
        step_lists_text(step),
        "}"@,
        mid,
        rl,
    );
    lemma_middle(head, mid, rl, l1, t1, r2, t2, r3, t3, rc, l4, t4, r5, t5);
    lemma_step_layout(t, head, l1, t1, r2, t2, r3, t3, rc, l4, t4, r5, t5, rl);
    law_rounded_dp_is_near(step.step_duration.0, 3);
    law_rounded_dp_is_near(step.max_unrealized_pnl.0, 3);
    law_rounded_dp_is_near(step.min_unrealized_pnl.0, 3);
    law_rounded_dp_is_near(step.initial_price.0, 3);
    law_rounded_dp_is_near(step.final_price.0, 3);
    lemma_shows_rounded(
        t,
        l1,
        step.step_duration,
        head,
        y1,
        r2 + t2 + comma_then(r3) + t3 + comma_then(rc) + l4 + t4 + comma_then(r5) + t5
            + comma_then(rl),
    );
    lemma_shows_rounded(
        t,
        comma_then(r2),
        step.max_unrealized_pnl,
        head + l1 + t1,
        y2,
        r3 + t3 + comma_then(rc) + l4 + t4 + comma_then(r5) + t5 + comma_then(rl),
    );
    lemma_shows_rounded(
        t,
        comma_then(r3),
        step.min_unrealized_pnl,
        head + l1 + t1 + comma_then(r2) + t2,
        y3,
        rc + l4 + t4 + comma_then(r5) + t5 + comma_then(rl),
    );
    lemma_shows_rounded(
        t,
        l4,
        step.initial_price,
        head + l1 + t1 + comma_then(r2) + t2 + comma_then(r3) + t3 + comma_then(rc),
        y4,
        r5 + t5 + comma_then(rl),
    );
    lemma_shows_rounded(
        t,
        comma_then(r5),
        step.final_price,
        head + l1 + t1 + comma_then(r2) + t2 + comma_then(r3) + t3 + comma_then(rc) + l4 + t4,
        y5,
        rl,
    );
}

impl PnLMetricsStep {
    /// Every amount of the step is a well-formed positive amount.
    pub open spec fn wf(&self) -> bool {
        &&& self.step_duration.wf()
        &&& self.max_unrealized_pnl.wf()
        &&& self.min_unrealized_pnl.wf()
        &&& self.initial_price.wf()
        &&& self.final_price.wf()
        &&& self.delta_adjustments.wf()
        &&& all_wf(self.strikes@)
        &&& all_wf(self.initial_volumes@)
        &&& all_wf(self.final_volumes@)
    }

    /// The step as one line of `name: value` pairs after its P&L, which
    /// reads `pnl_text`; prices, durations and the amounts in the lists are
    /// rounded to three decimal places.
    pub fn describe(&self, pnl_text: &str) -> (r: String)
        requires
            self.wf(),
        ensures
            r@ == step_text(*self, pnl_text@),
    {
        let mut s = String::new();
        s.append("PnLMetricsStep: {");
        s.append(pnl_text);
        let fields = self.fields_text();
        s.append(fields.as_str());
        let lists = self.lists_text();
        s.append(lists.as_str());
        s.append("}");
        proof {
            assert(s@ =~= step_text(*self, pnl_text@));
        }
        s
    }

    /// The counts and amounts from `win` to `final_price`.
    fn fields_text(&self) -> (r: String)
        requires
            self.wf(),
        ensures
            r@ == step_fields_text(*self),
    {
        let mut s = String::new();
        s.append(", win: ");
        append_bool(&mut s, self.win);
        s.append(", step_number: ");
        append_digits(&mut s, self.step_number as u64);
        s.append(", step_duration: ");
        s.append(positive_to_text(positive_round_to(self.step_duration, 3)).as_str());
        s.append(", max_unrealized_pnl: ");
        s.append(positive_to_text(positive_round_to(self.max_unrealized_pnl, 3)).as_str());
        s.append(", min_unrealized_pnl: ");
        s.append(positive_to_text(positive_round_to(self.min_unrealized_pnl, 3)).as_str());
        s.append(", winning_steps: ");
        append_digits(&mut s, self.winning_steps as u64);
        s.append(", losing_steps: ");
        append_digits(&mut s, self.losing_steps as u64);
        s.append(", initial_price: ");
        s.append(positive_to_text(positive_round_to(self.initial_price, 3)).as_str());
        s.append(", final_price: ");
        s.append(positive_to_text(positive_round_to(self.final_price, 3)).as_str());
        proof {
            assert(s@ =~= step_fields_text(*self));
        }
        s
    }

    /// The bracketed lists and the delta adjustments.
    fn lists_text(&self) -> (r: String)
        requires
            self.wf(),
        ensures
            r@ == step_lists_text(*self),
    {
        let mut s = String::new();
        s.append(", strikes: [");
        append_rounded_list(&mut s, &self.strikes);
        s.append("], initial_volumes: [");
        append_rounded_list(&mut s, &self.initial_volumes);
        s.append("], final_volumes: [");
        append_rounded_list(&mut s, &self.final_volumes);
        s.append("], delta_adjustments: ");
        s.append(positive_to_text(self.delta_adjustments).as_str());
        proof {
            assert(s@ =~= step_lists_text(*self));
        }
        s
    }
}

/// Appends the amounts rounded to three decimal places, separated by `, `.
fn append_rounded_list(s: &mut String, values: &Vec<Positive>)
    requires
        all_wf(values@),
    ensures
        final(s)@ == old(s)@ + rounded_list(values@),
{
    let ghost start = s@;
    let mut i: usize = 0;
    while i < values.len()
        invariant
            i <= values.len(),
            all_wf(values@),
            s@ == start + rounded_list(values@.take(i as int)),
        decreases values.len() - i,
    {
        let v = values[i];
        assert(v.wf());
        if i > 0 {
            s.append(", ");
        }
        s.append(decimal_to_text(decimal_round_dp(v.0, 3)).as_str());
        proof {
            let next = values@.take(i + 1);
            assert(next.drop_last() =~= values@.take(i as int));
            assert(next.last() == v);
            if i == 0 {
                assert(values@.take(0) =~= Seq::<Positive>::empty());
            }
            assert(s@ =~= start + rounded_list(next));
        }
        i = i + 1;
    }
    proof {
        assert(values@.take(values@.len() as int) =~= values@);
    }
}

/// The summary metrics of a trading simulation or period.
#[derive(Clone, Debug, PartialEq)]
pub struct PnLMetrics {
    /// The total profit and loss.
    pub total_pnl: Decimal,
    /// The largest profit.
    pub max_profit: Positive,
    /// The largest loss.
    pub max_loss: Positive,
    /// The share of winning steps.
    pub win_rate: Decimal,
    /// The share of losing steps.
    pub loss_rate: Decimal,
    /// How many steps there were.
    pub total_steps: u32,
    /// How many steps won.
    pub winning_steps: u32,
    /// How many steps lost.
    pub losing_steps: u32,
    /// The average win.
    pub avg_win: Decimal,
    /// The average loss.
    pub avg_loss: Decimal,
    /// The largest drawdown.
    pub max_drawdown: Positive,
    /// The Sharpe ratio.
    pub sharpe_ratio: Decimal,
    /// The Sortino ratio.
    pub sortino_ratio: Decimal,
    /// Gross profit over gross loss.
    pub profit_factor: Decimal,
    /// How fast losses were recovered.
    pub recovery_factor: Decimal,
    /// The expected payoff per step.
    pub expected_payoff: Decimal,
    /// How long the simulation lasted.
    pub simulation_duration: Decimal,
    /// When the simulation started.
    pub start_time: UtcDateTime,
    /// When the simulation ended.
    pub end_time: UtcDateTime,
}

impl Default for PnLMetrics {
    /// Every metric zero; start and end at the present instant.
    fn default() -> (r: PnLMetrics)
        ensures
            is_zero_decimal(r.total_pnl),
            is_plain_zero(r.max_profit),
            is_plain_zero(r.max_loss),
            is_zero_decimal(r.win_rate),
            is_zero_decimal(r.loss_rate),
            r.total_steps == 0,
            r.winning_steps == 0,
            r.losing_steps == 0,
            is_zero_decimal(r.avg_win),
            is_zero_decimal(r.avg_loss),
            is_plain_zero(r.max_drawdown),
            is_zero_decimal(r.sharpe_ratio),
            is_zero_decimal(r.sortino_ratio),
            is_zero_decimal(r.profit_factor),
            is_zero_decimal(r.recovery_factor),
            is_zero_decimal(r.expected_payoff),
            is_zero_decimal(r.simulation_duration),
            r.start_time.wf(),
            r.end_time.wf(),
    {
        let start_time = utc_now();
        let end_time = utc_now();
        PnLMetrics {
            total_pnl: Decimal::zero(),
            max_profit: Positive::zero(),
            max_loss: Positive::zero(),
            win_rate: Decimal::zero(),
            loss_rate: Decimal::zero(),
            total_steps: 0,
            winning_steps: 0,
            losing_steps: 0,
            avg_win: Decimal::zero(),
            avg_loss: Decimal::zero(),
            max_drawdown: Positive::zero(),
            sharpe_ratio: Decimal::zero(),
            sortino_ratio: Decimal::zero(),
            profit_factor: Decimal::zero(),
            recovery_factor: Decimal::zero(),
            expected_payoff: Decimal::zero(),
            simulation_duration: Decimal::zero(),
            start_time,
            end_time,
        }
    }
}

/// The steps of one simulation run together with the parameters it ran
/// with.
#[derive(Clone, Debug)]
pub struct PnLMetricsDocument {
    /// How many days the run covered.
    pub days: Positive,
    /// The traded symbol.
    pub symbol: String,
    /// The fee per trade.
    pub fee: Positive,
    /// The delta of the strategy.
    pub delta: Decimal,
    /// The delta at which the strategy was adjusted.
    pub delta_adjustment_at: Decimal,
    /// The steps of the run.
    pub metrics: Vec<PnLMetricsStep>,
}

/// Groups the steps of a run with the parameters it ran with.
pub fn create_pnl_metrics_document(
    metrics: Vec<PnLMetricsStep>,
    days: Positive,
    symbol: String,
    fee: Positive,
    delta: Decimal,
    delta_adjustment_at: Decimal,
) -> (r: PnLMetricsDocument)
    ensures
        r.metrics == metrics,
        r.days == days,
        r.symbol == symbol,
        r.fee == fee,
        r.delta == delta,
        r.delta_adjustment_at == delta_adjustment_at,
{
    PnLMetricsDocument { days, symbol, fee, delta, delta_adjustment_at, metrics }
}

} // verus!
