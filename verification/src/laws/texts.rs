//! Text and numbers in it.
use vstd::prelude::*;

use crate::decimal::{
    decimal_digits, decimal_value, digit_run, is_digit, is_digits, lemma_digit_run,
    lemma_digits_read_back, lemma_pow10_sum, lemma_value_concat, lemma_value_prefix,
    parsed_unsigned, pow10, unsigned_value, NumberFault,
};
use crate::text::{
    after_prefix, cut, is_white_space, lemma_first_at, lemma_first_at_absent, lemma_trimmed_back,
    lemma_trimmed_front, trimmed,
};

verus! {

/// Whether a character is a blank, a line end or another space of Unicode.
pub open spec fn is_blank(c: char) -> bool {
    let code = c as int;
    ||| 9 <= code <= 13
    ||| code == 32
    ||| code == 133
    ||| code == 160
    ||| code == 5760
    ||| 8192 <= code <= 8202
    ||| 8232 <= code <= 8233
    ||| code == 8239
    ||| code == 8287
    ||| code == 12288
}

pub open spec fn all_blank(s: Seq<char>) -> bool {
    forall|i: int| 0 <= i < s.len() ==> is_blank(#[trigger] s[i])
}

/// Every character from `0` to `9`.
pub open spec fn all_digits(s: Seq<char>) -> bool {
    forall|i: int| 0 <= i < s.len() ==> '0' <= #[trigger] s[i] <= '9'
}

pub proof fn lemma_blanks()
    ensures
        forall|c: char| #[trigger] is_white_space(c) <==> is_blank(c),
{
}

/// Trimming takes all the blanks around a text and nothing else.
pub proof fn law_trimming_takes_the_blanks(front: Seq<char>, core: Seq<char>, back: Seq<char>)
    requires
        all_blank(front),
        all_blank(back),
        core.len() > 0 ==> !is_blank(core[0]) && !is_blank(core.last()),
    ensures
        trimmed(front + core + back) == core,
{
    let s = front + core + back;
    lemma_blanks();
    if core.len() == 0 {
        assert forall|j: int| 0 <= j < s.len() implies is_white_space(#[trigger] s[j]) by {
            if j < front.len() {
                assert(is_blank(front[j]));
            } else {
                assert(s[j] == back[j - front.len()]);
                assert(is_blank(back[j - front.len()]));
            }
            assert(is_blank(s[j]));
        }
        lemma_trimmed_front(s, s.len() as int);
        assert(s.skip(s.len() as int) == core);
    } else {
        let n = front.len() as int;
        assert forall|j: int| 0 <= j < n implies is_white_space(#[trigger] s[j]) by {
            assert(is_blank(front[j]));
            assert(s[j] == front[j]);
        }
        assert(s[n] == core[0]);
        assert(!is_blank(s[n]));
        lemma_trimmed_front(s, n);
        let rest = s.skip(n);
        assert(rest == core + back);
        let m = core.len() as int;
        assert forall|j: int| m <= j < rest.len() implies is_white_space(#[trigger] rest[j]) by {
            assert(rest[j] == back[j - m]);
            assert(is_blank(back[j - m]));
        }
        assert(rest[m - 1] == core.last());
        assert(!is_blank(rest[m - 1]));
        lemma_trimmed_back(rest, m);
        assert(rest.take(m) == core);
    }
}

/// A text is cut at the first separator, and only where it has one.
pub proof fn law_texts_are_cut_at_the_first_separator(
    before: Seq<char>,
    c: char,
    after: Seq<char>,
)
    requires
        !before.contains(c),
    ensures
        cut(before.push(c) + after, c) == Some((before, after)),
        cut(before, c) is None,
{
    let s = before.push(c) + after;
    lemma_first_at_absent(before, c);
    assert forall|j: int| 0 <= j < before.len() implies s[j] != c by {
        assert(before.contains(before[j]));
    }
    assert(s[before.len() as int] == c);
    lemma_first_at(s, c, before.len() as int);
    assert(s.take(before.len() as int) == before);
    assert(s.skip(before.len() as int + 1) == after);
}

/// A prefix is taken off where it stands in front, and only there.
pub proof fn law_prefixes_come_off(prefix: Seq<char>, s: Seq<char>, i: int)
    ensures
        after_prefix(prefix + s, prefix) == Some(s),
        s.len() < prefix.len() ==> after_prefix(s, prefix) is None,
        0 <= i < prefix.len() <= s.len() && s[i] != prefix[i] ==> after_prefix(s, prefix) is None,
{
    assert(prefix.is_prefix_of(prefix + s));
    assert((prefix + s).skip(prefix.len() as int) == s);
}

/// Digits have the value of their places: one digit is its distance from `0`,
/// and what stands in front of other digits counts ten times for each of them.
pub proof fn law_digits_have_place_value(a: Seq<char>, b: Seq<char>, c: char)
    ensures
        decimal_value(Seq::empty()) == 0,
        '0' <= c <= '9' ==> decimal_value(seq![c]) == c as u32 - '0' as u32,
        decimal_value(a + b) == decimal_value(a) * pow10(b.len()) + decimal_value(b),
{
    lemma_value_concat(a, b);
    assert(seq![c].drop_last() == Seq::<char>::empty());
}

/// Powers of ten.
pub proof fn law_powers_of_ten(a: nat, b: nat)
    ensures
        pow10(0) == 1,
        pow10(1) == 10,
        pow10(a + b) == pow10(a) * pow10(b),
{
    lemma_pow10_sum(a, b);
    assert(pow10(1) == 10 * pow10(0));
}

/// A number is written with digits that denote it, the first of them `0` only for
/// zero.
pub proof fn law_numbers_are_written_out(n: nat)
    ensures
        decimal_digits(n).len() > 0,
        all_digits(decimal_digits(n)),
        decimal_value(decimal_digits(n)) == n,
        decimal_digits(n)[0] == '0' ==> n == 0,
        n == 0 ==> decimal_digits(n).len() == 1,
    decreases n,
{
    lemma_digits_read_back(n);
    let s = decimal_digits(n);
    assert forall|i: int| 0 <= i < s.len() implies '0' <= #[trigger] s[i] <= '9' by {
        assert(is_digit(s[i]));
    }
    if n >= 10 {
        law_numbers_are_written_out(n / 10);
        assert(s[0] == decimal_digits(n / 10)[0]);
    }
}

/// A number is an optional plus sign and digits that denote no more than the
/// largest one. Otherwise it is told what is wrong first: that the digits so far
/// denote more than that, or that something is no digit.
pub proof fn law_numbers_are_read(plus: bool, digits: Seq<char>, rest: Seq<char>, max: nat)
    requires
        all_digits(digits),
        rest.len() > 0 ==> !('0' <= rest[0] <= '9'),
        !plus && digits.len() == 0 && rest.len() > 0 ==> rest[0] != '+',
    ensures
        ({
            let sign = if plus {
                seq!['+']
            } else {
                Seq::<char>::empty()
            };
            parsed_unsigned(sign + digits + rest, max) == (if decimal_value(digits) > max {
                Err::<nat, NumberFault>(NumberFault::TooLarge)
            } else if digits.len() == 0 || rest.len() > 0 {
                Err::<nat, NumberFault>(NumberFault::InvalidDigit)
            } else {
                Ok::<nat, NumberFault>(decimal_value(digits))
            })
        }),
{
    let sign = if plus {
        seq!['+']
    } else {
        Seq::<char>::empty()
    };
    let s = sign + digits + rest;
    let body = digits + rest;
    if plus {
        assert(s[0] == '+');
        assert(s.skip(1) == body);
    } else {
        assert(s == body);
        if digits.len() > 0 {
            assert(s[0] == digits[0]);
        } else if rest.len() > 0 {
            assert(s[0] == rest[0]);
        }
    }
    let n = digits.len() as int;
    assert(body.take(n) == digits);
    assert forall|i: int| 0 <= i < n implies is_digit(#[trigger] digits[i]) by {}
    lemma_digit_run(body, n);
    if rest.len() > 0 {
        assert(body[n] == rest[0]);
        assert(!is_digit(body[n]));
    } else {
        assert(body == digits);
    }
    assert(digit_run(body) == n);
}

/// A number reads back as itself from what it is written as, with or without a
/// plus sign.
pub proof fn law_written_numbers_read_back(n: nat, max: nat)
    requires
        n <= max,
    ensures
        parsed_unsigned(decimal_digits(n), max) == Ok::<nat, NumberFault>(n),
        parsed_unsigned(seq!['+'] + decimal_digits(n), max) == Ok::<nat, NumberFault>(n),
        unsigned_value(decimal_digits(n), max) == Some(n),
{
    let digits = decimal_digits(n);
    law_numbers_are_written_out(n);
    law_numbers_are_read(false, digits, Seq::empty(), max);
    law_numbers_are_read(true, digits, Seq::empty(), max);
    assert(Seq::<char>::empty() + digits + Seq::<char>::empty() == digits);
    assert(seq!['+'] + digits + Seq::<char>::empty() == seq!['+'] + digits);
}

} // verus!
