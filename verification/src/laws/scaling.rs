//! Scaling of decimal literals.
use vstd::prelude::*;

use crate::decimal::{
    decimal_digits, decimal_value, is_decimal_literal, is_digit, is_digits, lemma_digits_read_back,
    lemma_pow10_positive, lemma_pow10_sum, literal_parts, pow10, rounded_quotient, without_minus,
};
use crate::laws::texts::{all_digits, law_texts_are_cut_at_the_first_separator};
use crate::senml::scaled_literal;
use crate::text::{first_at, lemma_first_at_absent};

verus! {

/// The digits of a literal, as if there were no point, and how many of them
/// stand behind it.
pub open spec fn mantissa(literal: Seq<char>) -> nat {
    let (whole, fraction) = literal_parts(without_minus(literal));
    decimal_value(whole + fraction)
}

pub open spec fn decimals(literal: Seq<char>) -> nat {
    literal_parts(without_minus(literal)).1.len()
}

/// The absolute value.
pub open spec fn magnitude(v: int) -> int {
    if v < 0 {
        -v
    } else {
        v
    }
}

proof fn lemma_exact_quotient(a: int, b: int)
    requires
        a >= 0,
        b > 0,
    ensures
        rounded_quotient((a * b) as nat, b as nat) == a,
{
    assert(a * b >= 0) by (nonlinear_arith)
        requires
            a >= 0,
            b > 0,
    ;
    assert((2 * (a * b) + b) / (2 * b) == a) by (nonlinear_arith)
        requires
            a >= 0,
            b > 0,
    ;
}

proof fn lemma_nearest_quotient(a: int, b: int)
    requires
        a >= 0,
        b > 0,
    ensures
        2 * a - b < 2 * (rounded_quotient(a as nat, b as nat) * b) <= 2 * a + b,
{
    let q = (2 * a + b) / (2 * b);
    assert(2 * b * q <= 2 * a + b < 2 * b * q + 2 * b) by (nonlinear_arith)
        requires
            a >= 0,
            b > 0,
            q == (2 * a + b) / (2 * b),
    ;
    assert(2 * b * q == 2 * (q * b)) by (nonlinear_arith);
}

/// Where a literal has no more decimals than it is shifted by, scaling loses
/// nothing: the result is the literal's digits followed by zeros.
pub proof fn law_scaling_is_exact(raw: Seq<char>, exp: nat)
    requires
        decimals(raw) <= exp,
        scaled_literal(raw, exp) is Some,
    ensures
        magnitude(scaled_literal(raw, exp)->0 as int) == mantissa(raw) * pow10(
            (exp - decimals(raw)) as nat,
        ),
{
    let m = mantissa(raw);
    let f = decimals(raw);
    let d = (exp - f) as nat;
    lemma_pow10_sum(d, f);
    lemma_pow10_positive(f);
    let p = pow10(d) as int;
    let q = pow10(f) as int;
    assert(m * (p * q) == (m * p) * q) by (nonlinear_arith);
    assert(m * p >= 0) by (nonlinear_arith)
        requires
            m >= 0,
            p >= 0,
    ;
    lemma_exact_quotient(m * p, q);
}

/// Otherwise the result is the nearest integer: it is off by half at most, and
/// a half goes away from zero.
pub proof fn law_scaling_rounds_to_the_nearest(raw: Seq<char>, exp: nat)
    requires
        scaled_literal(raw, exp) is Some,
    ensures
        ({
            let exact = mantissa(raw) * pow10(exp);
            let unit = pow10(decimals(raw)) as int;
            let result = magnitude(scaled_literal(raw, exp)->0 as int);
            2 * exact - unit < 2 * (result * unit) <= 2 * exact + unit
        }),
{
    let m = mantissa(raw);
    let p = pow10(exp) as int;
    lemma_pow10_positive(decimals(raw));
    assert(m * p >= 0) by (nonlinear_arith)
        requires
            m >= 0,
            p >= 0,
    ;
    lemma_nearest_quotient(m * p, pow10(decimals(raw)) as int);
}

/// No result is the least `i64`, so that every one has a negative.
pub proof fn law_scaled_values_have_negatives(raw: Seq<char>, exp: nat)
    ensures
        scaled_literal(raw, exp) != Some(i64::MIN),
{
}

/// A minus sign in front of a literal without one negates the result.
pub proof fn law_minus_negates(digits: Seq<char>, exp: nat)
    requires
        digits.len() > 0,
        digits[0] != '-',
    ensures
        scaled_literal(seq!['-'] + digits, exp) == match scaled_literal(digits, exp) {
            Some(v) => Some((-v) as i64),
            None => None,
        },
{
    let signed = seq!['-'] + digits;
    assert(signed[0] == '-');
    assert(signed.skip(1) == digits);
}

/// A plain decimal: digits, then a point and more digits where there are any, and
/// a minus sign in front of a negative one.
pub open spec fn written(negative: bool, whole: Seq<char>, fraction: Seq<char>) -> Seq<char> {
    let digits = if fraction.len() == 0 {
        whole
    } else {
        whole.push('.') + fraction
    };
    if negative {
        seq!['-'] + digits
    } else {
        digits
    }
}

pub proof fn lemma_written_parts(negative: bool, whole: Seq<char>, fraction: Seq<char>)
    requires
        whole.len() > 0,
        all_digits(whole),
        all_digits(fraction),
    ensures
        is_decimal_literal(written(negative, whole, fraction)),
        literal_parts(without_minus(written(negative, whole, fraction))) == (whole, fraction),
        written(negative, whole, fraction).len() > 0,
        written(negative, whole, fraction)[0] == '-' <==> negative,
{
    let raw = written(negative, whole, fraction);
    let digits = written(false, whole, fraction);
    assert(digits[0] == whole[0]);
    assert('0' <= whole[0]);
    if negative {
        assert(raw.skip(1) == digits);
    }
    assert(without_minus(raw) == digits);
    assert forall|i: int| 0 <= i < whole.len() implies is_digit(#[trigger] whole[i]) && whole[i]
        != '.' by {}
    assert forall|i: int| 0 <= i < fraction.len() implies is_digit(#[trigger] fraction[i]) by {}
    law_texts_are_cut_at_the_first_separator(whole, '.', fraction);
    lemma_first_at_absent(digits, '.');
    if fraction.len() == 0 {
        assert(digits == whole);
        assert(fraction == Seq::<char>::empty());
    } else {
        assert(digits == whole.push('.') + fraction);
    }
}

/// Every plain decimal scales to the nearest integer, halves away from zero, and
/// keeps its sign, unless 64 bits do not hold it.
pub proof fn law_every_plain_decimal_scales(
    negative: bool,
    whole: Seq<char>,
    fraction: Seq<char>,
    exp: nat,
    nearest: nat,
)
    requires
        whole.len() > 0,
        all_digits(whole),
        all_digits(fraction),
        ({
            let exact = decimal_value(whole + fraction) * pow10(exp);
            let unit = pow10(fraction.len());
            2 * exact - unit < 2 * (nearest * unit) <= 2 * exact + unit
        }),
    ensures
        nearest <= i64::MAX ==> (scaled_literal(written(negative, whole, fraction), exp) matches Some(
            v,
        ) && v == (if negative {
            -(nearest as int)
        } else {
            nearest as int
        })),
        nearest > i64::MAX ==> scaled_literal(written(negative, whole, fraction), exp) is None,
{
    lemma_written_parts(negative, whole, fraction);
    let a = (decimal_value(whole + fraction) * pow10(exp)) as int;
    let b = pow10(fraction.len()) as int;
    let n = nearest as int;
    lemma_pow10_positive(fraction.len());
    let r = 2 * a + b - n * (2 * b);
    assert(n * (2 * b) == 2 * (n * b)) by (nonlinear_arith);
    assert(0 <= r < 2 * b);
    vstd::arithmetic::div_mod::lemma_fundamental_div_mod_converse(2 * a + b, 2 * b, n, r);
}

/// There is such a nearest integer for every plain decimal.
pub proof fn law_plain_decimals_have_a_nearest(whole: Seq<char>, fraction: Seq<char>, exp: nat) -> (
    nearest: nat)
    ensures
        ({
            let exact = decimal_value(whole + fraction) * pow10(exp);
            let unit = pow10(fraction.len());
            2 * exact - unit < 2 * (nearest * unit) <= 2 * exact + unit
        }),
{
    let m = decimal_value(whole + fraction) as int;
    let p = pow10(exp) as int;
    lemma_pow10_positive(fraction.len());
    assert(m * p >= 0) by (nonlinear_arith)
        requires
            m >= 0,
            p >= 0,
    ;
    lemma_nearest_quotient(m * p, pow10(fraction.len()) as int);
    rounded_quotient((m * p) as nat, pow10(fraction.len()))
}

/// Nothing but a plain decimal scales.
pub proof fn law_what_scales_is_a_plain_decimal(raw: Seq<char>, exp: nat)
    requires
        scaled_literal(raw, exp) is Some,
    ensures
        exists|negative: bool, whole: Seq<char>, fraction: Seq<char>|
            whole.len() > 0 && all_digits(whole) && all_digits(fraction) && raw == #[trigger] written(
                negative,
                whole,
                fraction,
            ),
{
    let negative = raw.len() > 0 && raw[0] == '-';
    let digits = without_minus(raw);
    let (whole, fraction) = literal_parts(digits);
    lemma_first_at_absent(digits, '.');
    assert forall|i: int| 0 <= i < whole.len() implies '0' <= #[trigger] whole[i] <= '9' by {
        assert(is_digit(whole[i]));
    }
    assert forall|i: int| 0 <= i < fraction.len() implies '0' <= #[trigger] fraction[i] <= '9' by {
        assert(is_digit(fraction[i]));
    }
    let at = first_at(digits, '.');
    if at < digits.len() {
        assert(digits == whole.push('.') + fraction);
    }
    assert(digits == written(false, whole, fraction));
    if negative {
        assert(raw == seq!['-'] + digits);
    }
    assert(raw == written(negative, whole, fraction));
}

/// Nothing but digits, one minus sign in front and one point between digits is
/// scaled: no plus sign, no white space, no exponent.
pub proof fn law_only_plain_decimals_scale(raw: Seq<char>, exp: nat, i: int)
    requires
        scaled_literal(raw, exp) is Some,
        0 <= i < raw.len(),
    ensures
        is_decimal_literal(raw),
        is_digit(raw[i]) || (raw[i] == '-' && i == 0) || (raw[i] == '.' && 0 < i < raw.len() - 1
            && is_digit(raw[i - 1]) && is_digit(raw[i + 1])),
{
    let digits = without_minus(raw);
    let (whole, fraction) = literal_parts(digits);
    lemma_first_at_absent(digits, '.');
    let at = first_at(digits, '.');
    let start: int = if raw[0] == '-' {
        1
    } else {
        0
    };
    assert(digits == raw.skip(start));
    if i >= start {
        let k = i - start;
        assert(raw[i] == digits[k]);
        if k < at {
            assert(whole[k] == digits[k]);
        } else if k > at {
            assert(fraction[k - at - 1] == digits[k]);
        } else {
            assert(digits.contains('.'));
            assert(whole[at - 1] == digits[at - 1]);
            assert(is_digit(whole[at - 1]));
            assert(fraction[0] == digits[at + 1]);
            assert(is_digit(fraction[0]));
        }
    }
}

/// A whole number scales to itself followed by zeros, as long as that fits.
pub proof fn law_whole_numbers_scale(n: nat, exp: nat)
    requires
        n * pow10(exp) <= i64::MAX,
    ensures
        scaled_literal(decimal_digits(n), exp) == Some((n * pow10(exp)) as i64),
{
    let digits = decimal_digits(n);
    lemma_digits_read_back(n);
    assert(is_digit(digits[0]));
    assert forall|i: int| 0 <= i < digits.len() implies digits[i] != '.' by {
        assert(is_digit(digits[i]));
    }
    lemma_first_at_absent(digits, '.');
    assert(digits + Seq::<char>::empty() == digits);
    assert(is_digits(Seq::<char>::empty()));
    assert(n * pow10(exp) >= 0) by (nonlinear_arith);
    lemma_exact_quotient((n * pow10(exp)) as int, 1);
    assert((n * pow10(exp)) * 1 == n * pow10(exp));
    assert(pow10(0) == 1);
}

} // verus!
