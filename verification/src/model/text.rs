//! Text forms of values: integers and booleans written digit by digit,
//! decimals and positive amounts as `rust_decimal` and `positive` write
//! them, and rounding to a number of decimal places.

use vstd::prelude::*;
use crate::model::decimal::{magnitude, pow10, Decimal};
use crate::model::positive::Positive;

verus! {

/// The character of the decimal digit `d`.
pub open spec fn digit_char(d: int) -> char {
    (48 + d) as char
}

/// The decimal digits of `n`, most significant first.
pub open spec fn nat_digits(n: nat) -> Seq<char>
    decreases n,
{
    if n < 10 {
        seq![digit_char(n as int)]
    } else {
        nat_digits(n / 10).push(digit_char((n % 10) as int))
    }
}

/// The decimal text of `i`: a minus sign before the digits when negative.
pub open spec fn int_text(i: int) -> Seq<char> {
    if i < 0 {
        seq!['-'] + nat_digits((-i) as nat)
    } else {
        nat_digits(i as nat)
    }
}

/// Whether `c` is one of the digits `0` to `9`.
pub open spec fn is_digit(c: char) -> bool {
    48 <= (c as int) && (c as int) <= 57
}

/// The number that a run of digits denotes, most significant first.
pub open spec fn digits_value(s: Seq<char>) -> int
    decreases s.len(),
{
    if s.len() == 0 {
        0
    } else {
        10 * digits_value(s.drop_last()) + ((s.last() as int) - 48)
    }
}

/// The digits of a numeral: what follows its minus sign, if it has one.
pub open spec fn numeral_digits(s: Seq<char>) -> Seq<char> {
    if s.len() > 0 && s[0] == '-' {
        s.drop_first()
    } else {
        s
    }
}

/// `s` is an integer written in the usual way: an optional minus sign, then
/// at least one digit, with no leading zero except in `0` itself, and no
/// minus sign before `0`.
pub open spec fn is_numeral(s: Seq<char>) -> bool {
    let ds = numeral_digits(s);
    &&& ds.len() > 0
    &&& forall|i: int| 0 <= i < ds.len() ==> is_digit(#[trigger] ds[i])
    &&& (ds[0] == '0' ==> ds.len() == 1)
    &&& (s[0] == '-' ==> ds[0] != '0')
}

/// The integer that a numeral denotes.
pub open spec fn numeral_value(s: Seq<char>) -> int {
    if s.len() > 0 && s[0] == '-' {
        -digits_value(s.drop_first())
    } else {
        digits_value(s)
    }
}

/// The digits of `n` are a run of digits that reads back as `n`, with no
/// leading zero unless `n` is zero.
pub proof fn lemma_nat_digits_read_back(n: nat)
    ensures
        nat_digits(n).len() > 0,
        forall|i: int| 0 <= i < nat_digits(n).len() ==> is_digit(#[trigger] nat_digits(n)[i]),
        digits_value(nat_digits(n)) == n,
        nat_digits(n)[0] == '0' ==> n == 0,
        nat_digits(n)[0] != '-',
        n == 0 ==> nat_digits(n) == seq!['0'],
    decreases n,
{
    if n < 10 {
        assert(nat_digits(n) == seq![digit_char(n as int)]);
        assert((digit_char(n as int) as int) == 48 + n);
        assert(nat_digits(n).drop_last() =~= Seq::<char>::empty());
        assert(digits_value(Seq::<char>::empty()) == 0);
        assert(digits_value(nat_digits(n)) == 10 * digits_value(nat_digits(n).drop_last()) + ((
        nat_digits(n).last() as int) - 48));
    } else {
        lemma_nat_digits_read_back(n / 10);
        let ds = nat_digits(n);
        let c = digit_char((n % 10) as int);
        assert(ds == nat_digits(n / 10).push(c));
        assert(ds.drop_last() =~= nat_digits(n / 10));
        assert((c as int) == 48 + n % 10);
        assert(ds.last() == c);
        assert(digits_value(ds) == 10 * digits_value(ds.drop_last()) + ((ds.last() as int) - 48));
        assert(ds[0] == nat_digits(n / 10)[0]);
        assert forall|i: int| 0 <= i < ds.len() implies is_digit(#[trigger] ds[i]) by {
            if i < ds.len() - 1 {
                assert(ds[i] == nat_digits(n / 10)[i]);
            }
        }
    }
}

/// The text of an integer is a numeral that reads back as the integer.
pub proof fn law_int_text_reads_back(i: int)
    ensures
        is_numeral(int_text(i)),
        numeral_value(int_text(i)) == i,
{
    if i < 0 {
        let m = (-i) as nat;
        lemma_nat_digits_read_back(m);
        let t = int_text(i);
        assert(t.drop_first() =~= nat_digits(m));
        assert(numeral_digits(t) =~= nat_digits(m));
    } else {
        lemma_nat_digits_read_back(i as nat);
    }
}

/// `true` or `false`.
pub open spec fn bool_text(b: bool) -> Seq<char> {
    if b {
        "true"@
    } else {
        "false"@
    }
}

/// `n / 10^k` rounded to an integer, a tie going to the even neighbour.
pub open spec fn round_half_even(n: nat, k: nat) -> nat {
    let q = (n as int) / pow10(k);
    let r = (n as int) % pow10(k);
    let half = 5 * pow10((k - 1) as nat);
    if r > half || (r == half && q % 2 == 1) {
        (q + 1) as nat
    } else {
        q as nat
    }
}

/// `d` rounded to `dp` decimal places, a tie going to the even neighbour;
/// a decimal with at most `dp` places is kept as it is.
pub open spec fn rounded_dp(d: Decimal, dp: nat) -> Decimal {
    if d.scale <= dp {
        d
    } else {
        let magnitude: nat = if d.mantissa < 0 {
            (-d.mantissa) as nat
        } else {
            d.mantissa as nat
        };
        let m = round_half_even(magnitude, (d.scale - dp) as nat);
        Decimal {
            mantissa: (if d.mantissa < 0 {
                -m
            } else {
                m as int
            }) as i128,
            scale: dp as u32,
        }
    }
}

/// `n` zeros.
pub open spec fn zeros(n: nat) -> Seq<char> {
    Seq::new(n, |i: int| '0')
}

/// The digits of `m`, none for zero, with zeros in front up to `scale`
/// digits.
pub open spec fn padded_digits(m: nat, scale: nat) -> Seq<char> {
    let digits = if m == 0 {
        Seq::empty()
    } else {
        nat_digits(m)
    };
    if digits.len() < scale {
        zeros((scale - digits.len()) as nat) + digits
    } else {
        digits
    }
}

/// The number `m / 10^scale` written out: the digits with a point before
/// the last `scale` of them, a `0` before a point that would lead, and `0`
/// for zero at scale zero.
pub open spec fn unsigned_text(m: nat, scale: nat) -> Seq<char> {
    let ds = padded_digits(m, scale);
    let whole = ds.len() - scale;
    if scale == 0 {
        if ds.len() == 0 {
            seq!['0']
        } else {
            ds
        }
    } else if whole == 0 {
        seq!['0', '.'] + ds
    } else {
        ds.take(whole) + seq!['.'] + ds.skip(whole)
    }
}

/// `y` has at most `dp` decimal places and lies within half of `10^-dp` of
/// `x`: it is `x` rounded to `dp` places.
pub open spec fn rounds_to_places(y: Decimal, x: Decimal, dp: nat) -> bool {
    &&& y.scale <= dp
    &&& 2 * pow10(dp) * magnitude(y.mantissa * pow10(x.scale as nat) - x.mantissa * pow10(
        y.scale as nat,
    )) <= pow10(x.scale as nat) * pow10(y.scale as nat)
}

/// `10^n` is at least one.
proof fn lemma_pow10_positive(n: nat)
    ensures
        pow10(n) >= 1,
    decreases n,
{
    if n > 0 {
        lemma_pow10_positive((n - 1) as nat);
    }
}

/// `10^(a + b) = 10^a * 10^b`.
proof fn lemma_pow10_add(a: nat, b: nat)
    ensures
        pow10(a + b) == pow10(a) * pow10(b),
    decreases b,
{
    if b > 0 {
        lemma_pow10_add(a, (b - 1) as nat);
        assert(pow10(a + b) == 10 * pow10((a + b - 1) as nat));
        assert(pow10(b) == 10 * pow10((b - 1) as nat));
        assert(10 * (pow10(a) * pow10((b - 1) as nat)) == pow10(a) * (10 * pow10(
            (b - 1) as nat,
        ))) by (nonlinear_arith);
    }
}

/// Rounding `n / 10^k` to an integer, ties to even, moves it by at most a
/// half: `|m * 10^k - n| <= 10^k / 2`.
proof fn lemma_round_half_even_error(n: nat, k: nat)
    requires
        k >= 1,
    ensures
        2 * magnitude(round_half_even(n, k) * pow10(k) - n) <= pow10(k),
        round_half_even(n, k) <= n,
{
    let p = pow10(k);
    lemma_pow10_positive((k - 1) as nat);
    assert(p == 10 * pow10((k - 1) as nat));
    let half = 5 * pow10((k - 1) as nat);
    assert(p == 2 * half);
    let q = (n as int) / p;
    let r = (n as int) % p;
    assert(n == q * p + r && 0 <= r < p) by (nonlinear_arith)
        requires
            p >= 1,
            q == (n as int) / p,
            r == (n as int) % p,
    ;
    if r > half || (r == half && q % 2 == 1) {
        assert(round_half_even(n, k) == q + 1);
        assert((q + 1) * p - n == p - r) by (nonlinear_arith)
            requires
                n == q * p + r,
        ;
        assert(q + 1 <= n) by (nonlinear_arith)
            requires
                n == q * p + r,
                p >= 10,
                r >= 5,
                q >= 0,
        ;
    } else {
        assert(round_half_even(n, k) == q);
        assert(q * p - n == -r);
        assert(q <= n) by (nonlinear_arith)
            requires
                n == q * p + r,
                p >= 1,
                r >= 0,
                q >= 0,
        ;
    }
}

/// Rounding to `dp` places gives a decimal with at most `dp` places within
/// half of `10^-dp` of the original.
pub proof fn law_rounded_dp_is_near(x: Decimal, dp: nat)
    ensures
        rounds_to_places(rounded_dp(x, dp), x, dp),
{
    let y = rounded_dp(x, dp);
    let xs = x.scale as nat;
    lemma_pow10_positive(xs);
    lemma_pow10_positive(dp);
    if xs <= dp {
        assert(y == x);
        assert(y.mantissa * pow10(xs) - x.mantissa * pow10(xs) == 0);
        assert(pow10(xs) * pow10(xs) >= 0) by (nonlinear_arith)
            requires
                pow10(xs) >= 1,
        ;
        assert(magnitude(y.mantissa * pow10(xs) - x.mantissa * pow10(y.scale as nat)) == 0);
        assert(2 * pow10(dp) * 0 == 0);
    } else {
        let k = (xs - dp) as nat;
        let big_m: nat = if x.mantissa < 0 {
            (-x.mantissa) as nat
        } else {
            x.mantissa as nat
        };
        let m = round_half_even(big_m, k);
        lemma_round_half_even_error(big_m, k);
        lemma_pow10_add(dp, k);
        assert(xs == dp + k);
        let pd = pow10(dp);
        let pk = pow10(k);
        let e = m * pk - big_m;
        // y.mantissa * 10^xs - x.mantissa * 10^dp is 10^dp * (m * 10^k - |x|),
        // with the sign of x.
        assert(y.scale == dp);
        assert(m <= big_m);
        let d = y.mantissa * pow10(xs) - x.mantissa * pow10(y.scale as nat);
        if x.mantissa < 0 {
            assert(y.mantissa == -m);
            assert(d == -(pd * e)) by (nonlinear_arith)
                requires
                    y.mantissa == -m,
                    x.mantissa == -big_m,
                    pow10(xs) == pd * pk,
                    pow10(y.scale as nat) == pd,
                    d == y.mantissa * pow10(xs) - x.mantissa * pow10(y.scale as nat),
                    e == m * pk - big_m,
            ;
        } else {
            assert(y.mantissa == m);
            assert(d == pd * e) by (nonlinear_arith)
                requires
                    y.mantissa == m,
                    x.mantissa == big_m,
                    pow10(xs) == pd * pk,
                    pow10(y.scale as nat) == pd,
                    d == y.mantissa * pow10(xs) - x.mantissa * pow10(y.scale as nat),
                    e == m * pk - big_m,
            ;
        }
        assert(magnitude(d) == pd * magnitude(e)) by (nonlinear_arith)
            requires
                d == pd * e || d == -(pd * e),
                pd >= 1,
        ;
        assert(2 * pd * (pd * magnitude(e)) <= (pd * pk) * pd) by (nonlinear_arith)
            requires
                2 * magnitude(e) <= pk,
                pd >= 1,
        ;
        assert(2 * pow10(dp) * magnitude(d) <= pow10(xs) * pow10(y.scale as nat));
    }
}

/// What `Display` of `rust_decimal::Decimal` writes for `d`: a minus sign
/// when negative, then the number written out at its own scale, trailing
/// zeros kept (`1.50`, `-0.05`, `0.00`).
pub open spec fn decimal_text(d: Decimal) -> Seq<char> {
    if d.mantissa < 0 {
        seq!['-'] + unsigned_text((-d.mantissa) as nat, d.scale as nat)
    } else {
        unsigned_text(d.mantissa as nat, d.scale as nat)
    }
}

/// `d` without the zeros that trail its point; zero at scale zero.
pub open spec fn normalized(d: Decimal) -> Decimal
    decreases d.scale,
{
    if d.mantissa == 0 {
        Decimal { mantissa: 0, scale: 0 }
    } else if d.scale > 0 && d.mantissa % 10 == 0 {
        normalized(Decimal { mantissa: (d.mantissa / 10) as i128, scale: (d.scale - 1) as u32 })
    } else {
        d
    }
}

/// What `Display` of `positive::Positive` writes for `p`: its decimal
/// normalized and then written as `rust_decimal` writes it (`1.5`, `100`).
pub open spec fn positive_text(p: Positive) -> Seq<char> {
    decimal_text(normalized(p.0))
}

/// Calls `rust_decimal::Decimal::round_dp`. Claimed, as its documentation
/// says: the decimal rounded to `dp` places with ties to even, and a decimal
/// with at most `dp` places unchanged.
#[verifier::external_body]
pub(crate) fn decimal_round_dp(d: Decimal, dp: u32) -> (r: Decimal)
    requires
        d.wf(),
    ensures
        r == rounded_dp(d, dp as nat),
        r.wf(),
{
    let x = rust_decimal::Decimal::from_i128_with_scale(d.mantissa, d.scale).round_dp(dp);
    Decimal { mantissa: x.mantissa(), scale: x.scale() }
}

/// Calls `positive::Positive::round_to`, which wraps what
/// `rust_decimal::Decimal::round_dp` returns and panics above 28 places.
/// Claimed: the amount rounded as `decimal_round_dp` rounds it.
#[verifier::external_body]
pub(crate) fn positive_round_to(p: Positive, dp: u32) -> (r: Positive)
    requires
        p.wf(),
        dp <= 28,
    ensures
        r == Positive(rounded_dp(p.0, dp as nat)),
        r.wf(),
{
    match ::positive::Positive::new_decimal(
        rust_decimal::Decimal::from_i128_with_scale(p.0.mantissa, p.0.scale),
    ) {
        Ok(x) => {
            let y = x.round_to(dp).to_dec();
            Positive(Decimal { mantissa: y.mantissa(), scale: y.scale() })
        },
        Err(_) => p,
    }
}

/// Calls `Display` of `rust_decimal::Decimal`. Claimed: the text is
/// `decimal_text(d)`, as its string conversion writes it.
#[verifier::external_body]
pub(crate) fn decimal_to_text(d: Decimal) -> (r: String)
    requires
        d.wf(),
    ensures
        r@ == decimal_text(d),
{
    rust_decimal::Decimal::from_i128_with_scale(d.mantissa, d.scale).to_string()
}

/// Calls `Display` of `positive::Positive`, which normalizes the decimal
/// and writes it with `Display` of `rust_decimal::Decimal`. Claimed: the
/// text is `positive_text(p)`.
#[verifier::external_body]
pub(crate) fn positive_to_text(p: Positive) -> (r: String)
    requires
        p.wf(),
    ensures
        r@ == positive_text(p),
{
    match ::positive::Positive::new_decimal(
        rust_decimal::Decimal::from_i128_with_scale(p.0.mantissa, p.0.scale),
    ) {
        Ok(x) => x.to_string(),
        Err(_) => String::new(),
    }
}

/// The text of one decimal digit.
fn digit_str(d: u64) -> (r: &'static str)
    requires
        d < 10,
    ensures
        r@ == seq![digit_char(d as int)],
{
    proof {
        reveal_strlit("0");
        reveal_strlit("1");
        reveal_strlit("2");
        reveal_strlit("3");
        reveal_strlit("4");
        reveal_strlit("5");
        reveal_strlit("6");
        reveal_strlit("7");
        reveal_strlit("8");
        reveal_strlit("9");
    }
    let r = if d == 0 {
        "0"
    } else if d == 1 {
        "1"
    } else if d == 2 {
        "2"
    } else if d == 3 {
        "3"
    } else if d == 4 {
        "4"
    } else if d == 5 {
        "5"
    } else if d == 6 {
        "6"
    } else if d == 7 {
        "7"
    } else if d == 8 {
        "8"
    } else {
        "9"
    };
    assert(r@ =~= seq![digit_char(d as int)]);
    r
}

/// Appends the decimal digits of `n`.
pub(crate) fn append_digits(s: &mut String, n: u64)
    ensures
        final(s)@ == old(s)@ + nat_digits(n as nat),
    decreases n,
{
    if n < 10 {
        s.append(digit_str(n));
    } else {
        append_digits(s, n / 10);
        s.append(digit_str(n % 10));
        proof {
            assert(final(s)@ =~= old(s)@ + nat_digits(n as nat));
        }
    }
}

/// Appends the decimal text of `i`.
pub(crate) fn append_int(s: &mut String, i: i32)
    ensures
        final(s)@ == old(s)@ + int_text(i as int),
{
    proof {
        reveal_strlit("-");
    }
    if i < 0 {
        s.append("-");
        let magnitude: i64 = -(i as i64);
        append_digits(s, magnitude as u64);
        proof {
            assert(final(s)@ =~= old(s)@ + int_text(i as int));
        }
    } else {
        append_digits(s, i as u64);
    }
}

/// Appends `true` or `false`.
pub(crate) fn append_bool(s: &mut String, b: bool)
    ensures
        final(s)@ == old(s)@ + bool_text(b),
{
    if b {
        s.append("true");
    } else {
        s.append("false");
    }
}

} // verus!
