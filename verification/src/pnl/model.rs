//! Buckets of profit-and-loss values.

use vstd::prelude::*;
use crate::model::decimal::{pow10, Decimal};
use crate::model::text::{append_int, int_text, is_numeral, law_int_text_reads_back, numeral_value};

verus! {

/// A bucket of P&L values, the half-open interval `[lower, upper)`.
#[derive(Clone, Debug, PartialEq, Eq, Hash, Structural)]
pub struct PnLRange {
    /// Lower bound of the bucket, included.
    pub lower: i32,
    /// Upper bound of the bucket, excluded.
    pub upper: i32,
}

/// The integer part of a decimal, rounded toward zero.
pub open spec fn truncated(d: Decimal) -> int {
    if d.mantissa >= 0 {
        (d.mantissa as int) / pow10(d.scale as nat)
    } else {
        -((-(d.mantissa as int)) / pow10(d.scale as nat))
    }
}

/// The integer part of the decimal fits in an `i32`.
pub open spec fn truncates_to_i32(d: Decimal) -> bool {
    i32::MIN <= truncated(d) <= i32::MAX
}

/// The interval notation `[lower, upper)`.
pub open spec fn range_label(lower: int, upper: int) -> Seq<char> {
    seq!['['] + int_text(lower) + seq![',', ' '] + int_text(upper) + seq![')']
}

/// The label of a bucket is `[`, a numeral, `, `, a numeral and `)`, and the
/// two numerals read back as the lower and the upper bound, signs included.
pub proof fn law_label_reads_back(lower: i32, upper: i32)
    ensures
        exists|a: Seq<char>, b: Seq<char>|
            #![trigger numeral_value(a), numeral_value(b)]
            {
                &&& range_label(lower as int, upper as int) == seq!['['] + a + seq![',', ' '] + b
                    + seq![')']
                &&& is_numeral(a)
                &&& is_numeral(b)
                &&& numeral_value(a) == lower
                &&& numeral_value(b) == upper
            },
{
    law_int_text_reads_back(lower as int);
    law_int_text_reads_back(upper as int);
    let a = int_text(lower as int);
    let b = int_text(upper as int);
    assert(range_label(lower as int, upper as int) == seq!['['] + a + seq![',', ' '] + b + seq![')']);
    assert(numeral_value(a) == lower && numeral_value(b) == upper);
}

impl PnLRange {
    /// The bucket `[lower, upper)`.
    pub fn new(lower: i32, upper: i32) -> (r: PnLRange)
        ensures
            r.lower == lower,
            r.upper == upper,
    {
        PnLRange { lower, upper }
    }

    /// The bucket whose bounds are the integer parts of two decimals,
    /// rounded toward zero: `-50.5` and `75.25` give `[-50, 75)`. The integer
    /// parts must fit in an `i32`.
    pub fn new_decimal(lower: Decimal, upper: Decimal) -> (r: PnLRange)
        requires
            lower.wf(),
            upper.wf(),
            truncates_to_i32(lower),
            truncates_to_i32(upper),
        ensures
            r.lower == truncated(lower),
            r.upper == truncated(upper),
    {
        let lo: i32 = match decimal_to_i32(&lower) {
            Some(v) => v,
            None => {
                proof {
                    assert(false);
                }
                0
            },
        };
        let hi: i32 = match decimal_to_i32(&upper) {
            Some(v) => v,
            None => {
                proof {
                    assert(false);
                }
                0
            },
        };
        PnLRange { lower: lo, upper: hi }
    }

    /// The bucket in interval notation, `[lower, upper)`: `[-10, 20)`.
    pub fn label(&self) -> (r: String)
        ensures
            r@ == range_label(self.lower as int, self.upper as int),
    {
        let mut s = String::new();
        proof {
            reveal_strlit("[");
            reveal_strlit(", ");
            reveal_strlit(")");
        }
        s.append("[");
        append_int(&mut s, self.lower);
        s.append(", ");
        append_int(&mut s, self.upper);
        s.append(")");
        proof {
            assert(s@ =~= range_label(self.lower as int, self.upper as int));
        }
        s
    }
}

/// Calls `num_traits::ToPrimitive::to_i32` on a decimal, which truncates
/// toward zero and reports an integer part outside the `i32` range.
#[verifier::external_body]
fn decimal_to_i32(d: &Decimal) -> (r: Option<i32>)
    requires
        d.wf(),
    ensures
        r == (if truncates_to_i32(*d) {
            Some(truncated(*d) as i32)
        } else {
            None
        }),
{
    num_traits::ToPrimitive::to_i32(&rust_decimal::Decimal::from_i128_with_scale(d.mantissa, d.scale))
}

} // verus!
