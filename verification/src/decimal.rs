//! Decimal notation: what a run of digits denotes, and numbers written out.
use vstd::prelude::*;

use crate::text;
use crate::text::cut;

verus! {

/// Ten to the power `n`.
pub open spec fn pow10(n: nat) -> nat
    decreases n,
{
    if n == 0 {
        1
    } else {
        10 * pow10((n - 1) as nat)
    }
}

pub open spec fn is_digit(c: char) -> bool {
    '0' <= c <= '9'
}

/// Whether `s` holds ASCII digits only; the empty sequence does.
pub open spec fn is_digits(s: Seq<char>) -> bool {
    forall|i: int| 0 <= i < s.len() ==> is_digit(#[trigger] s[i])
}

pub open spec fn digit_value(c: char) -> nat {
    (c as u32 - '0' as u32) as nat
}

pub open spec fn digit_char(d: nat) -> char {
    ('0' as u32 + d) as char
}

/// The number that a run of digits denotes.
pub open spec fn decimal_value(s: Seq<char>) -> nat
    decreases s.len(),
{
    if s.len() == 0 {
        0
    } else {
        10 * decimal_value(s.drop_last()) + digit_value(s.last())
    }
}

/// `n` in decimal, without leading zeros.
pub open spec fn decimal_digits(n: nat) -> Seq<char>
    decreases n,
{
    if n < 10 {
        seq![digit_char(n)]
    } else {
        decimal_digits(n / 10).push(digit_char(n % 10))
    }
}

/// `a / b` rounded to the nearest integer, halves upwards.
pub open spec fn rounded_quotient(a: nat, b: nat) -> nat {
    (2 * a + b) / (2 * b)
}

/// The number denoted by text that is an optional `+` and digits, where it is
/// at most `max`.
pub open spec fn unsigned_value(s: Seq<char>, max: nat) -> Option<nat> {
    let digits = if s.len() > 0 && s[0] == '+' {
        s.skip(1)
    } else {
        s
    };
    if digits.len() > 0 && is_digits(digits) && decimal_value(digits) <= max {
        Some(decimal_value(digits))
    } else {
        None
    }
}

/// Why a text is no unsigned number: the first character that does not fit, or
/// a value beyond the largest one, whichever comes first.
#[derive(Debug, Clone, Copy, PartialEq, Eq, Structural)]
pub enum NumberFault {
    InvalidDigit,
    TooLarge,
}

impl NumberFault {
    pub open spec fn text(self) -> Seq<char> {
        match self {
            NumberFault::InvalidDigit => "invalid digit found in string"@,
            NumberFault::TooLarge => "number too large to fit in target type"@,
        }
    }

    pub fn message(self) -> (res: String)
        ensures
            res@ == self.text(),
    {
        let text: &str = match self {
            NumberFault::InvalidDigit => "invalid digit found in string",
            NumberFault::TooLarge => "number too large to fit in target type",
        };
        text.to_owned()
    }
}

/// How many digits a text starts with.
pub open spec fn digit_run(s: Seq<char>) -> nat
    decreases s.len(),
{
    if s.len() > 0 && is_digit(s[0]) {
        1 + digit_run(s.skip(1))
    } else {
        0
    }
}

/// The number denoted by text that is an optional `+` and digits, or else why it
/// denotes none up to `max`. A value beyond `max` is told before a character
/// that stands behind it.
pub open spec fn parsed_unsigned(s: Seq<char>, max: nat) -> Result<nat, NumberFault> {
    let digits = if s.len() > 0 && s[0] == '+' {
        s.skip(1)
    } else {
        s
    };
    match unsigned_value(s, max) {
        Some(n) => Ok(n),
        None => if decimal_value(digits.take(digit_run(digits) as int)) > max {
            Err(NumberFault::TooLarge)
        } else {
            Err(NumberFault::InvalidDigit)
        },
    }
}

/// A decimal literal without its sign, as the digits before and after the point.
pub open spec fn literal_parts(digits: Seq<char>) -> (Seq<char>, Seq<char>) {
    match cut(digits, '.') {
        Some(parts) => parts,
        None => (digits, Seq::empty()),
    }
}

/// What follows the minus sign of a literal, where it has one.
pub open spec fn without_minus(literal: Seq<char>) -> Seq<char> {
    if literal.len() > 0 && literal[0] == '-' {
        literal.skip(1)
    } else {
        literal
    }
}

/// Whether `literal` is a plain `[-]digits[.digits]`.
pub open spec fn is_decimal_literal(literal: Seq<char>) -> bool {
    let digits = without_minus(literal);
    let (whole, fraction) = literal_parts(digits);
    &&& whole.len() > 0
    &&& is_digits(whole)
    &&& is_digits(fraction)
    &&& digits.contains('.') ==> fraction.len() > 0
}

pub proof fn lemma_pow10_positive(n: nat)
    ensures
        pow10(n) > 0,
    decreases n,
{
    if n > 0 {
        lemma_pow10_positive((n - 1) as nat);
    }
}

pub proof fn lemma_pow10_sum(a: nat, b: nat)
    ensures
        pow10(a + b) == pow10(a) * pow10(b),
    decreases b,
{
    if b == 0 {
        assert(pow10(a) * 1 == pow10(a)) by (nonlinear_arith);
    } else {
        lemma_pow10_sum(a, (b - 1) as nat);
        assert(pow10(a + b) == 10 * pow10((a + b - 1) as nat));
        let p = pow10(a) as int;
        let q = pow10((b - 1) as nat) as int;
        assert(10 * (p * q) == p * (10 * q)) by (nonlinear_arith);
    }
}

/// A run of `n` digits denotes less than ten to the power `n`.
pub proof fn lemma_value_bound(s: Seq<char>)
    requires
        is_digits(s),
    ensures
        decimal_value(s) < pow10(s.len()),
    decreases s.len(),
{
    if s.len() > 0 {
        lemma_value_bound(s.drop_last());
        assert(is_digit(s.last()));
    }
}

/// Writing one run behind another shifts the first by the length of the second.
pub proof fn lemma_value_concat(a: Seq<char>, b: Seq<char>)
    ensures
        decimal_value(a + b) == decimal_value(a) * pow10(b.len()) + decimal_value(b),
    decreases b.len(),
{
    if b.len() == 0 {
        assert(a + b == a);
        assert(decimal_value(a) * 1 == decimal_value(a)) by (nonlinear_arith);
    } else {
        lemma_value_concat(a, b.drop_last());
        assert((a + b).drop_last() == a + b.drop_last());
        assert((a + b).last() == b.last());
        let v = decimal_value(a) as int;
        let p = pow10(b.drop_last().len()) as int;
        assert(10 * (v * p) == v * (10 * p)) by (nonlinear_arith);
    }
}

/// A prefix denotes no more than the whole run.
pub proof fn lemma_value_prefix(s: Seq<char>, n: int)
    requires
        0 <= n <= s.len(),
    ensures
        decimal_value(s.take(n)) <= decimal_value(s),
{
    let head = s.take(n);
    let tail = s.skip(n);
    assert(head + tail == s);
    lemma_value_concat(head, tail);
    lemma_pow10_positive(tail.len());
    let v = decimal_value(head) as int;
    let p = pow10(tail.len()) as int;
    assert(v <= v * p) by (nonlinear_arith)
        requires
            v >= 0,
            p >= 1,
    ;
}

/// A number written out reads back as itself.
pub proof fn lemma_digits_read_back(n: nat)
    ensures
        is_digits(decimal_digits(n)),
        decimal_digits(n).len() > 0,
        decimal_value(decimal_digits(n)) == n,
    decreases n,
{
    let s = decimal_digits(n);
    if n < 10 {
        assert(s.drop_last() == Seq::<char>::empty());
        assert(decimal_value(s.drop_last()) == 0);
    } else {
        lemma_digits_read_back(n / 10);
        assert(s.drop_last() == decimal_digits(n / 10));
    }
}

/// Whether `c` is an ASCII digit.
pub fn digit(c: char) -> (res: bool)
    ensures
        res == is_digit(c),
{
    '0' <= c && c <= '9'
}

/// Whether `chars[from..to]` holds ASCII digits only.
pub fn all_digits(chars: &Vec<char>, from: usize, to: usize) -> (res: bool)
    requires
        from <= to <= chars.len(),
    ensures
        res == is_digits(chars@.subrange(from as int, to as int)),
{
    let ghost part = chars@.subrange(from as int, to as int);
    let mut i: usize = from;
    while i < to
        invariant
            from <= i <= to <= chars.len(),
            part == chars@.subrange(from as int, to as int),
            forall|j: int| 0 <= j < i - from ==> is_digit(#[trigger] part[j]),
        decreases to - i,
    {
        if !digit(chars[i]) {
            assert(!is_digit(part[i - from]));
            return false;
        }
        i = i + 1;
    }
    true
}

pub proof fn lemma_digit_run(s: Seq<char>, n: int)
    requires
        0 <= n <= s.len(),
        is_digits(s.take(n)),
    ensures
        n <= digit_run(s) <= s.len(),
        n < s.len() && !is_digit(s[n]) ==> digit_run(s) == n,
    decreases s.len(),
{
    if s.len() > 0 && is_digit(s[0]) {
        let tail = s.skip(1);
        if n > 0 {
            assert forall|i: int| 0 <= i < n - 1 implies is_digit(#[trigger] tail.take(n - 1)[i]) by {
                assert(is_digit(s.take(n)[i + 1]));
            }
            lemma_digit_run(tail, n - 1);
        } else {
            lemma_digit_run(tail, 0);
        }
    } else if n > 0 {
        assert(is_digit(s.take(n)[0]));
    }
}

/// Reads an unsigned number: an optional `+`, then digits.
pub fn parse_unsigned(s: &str, max: u64) -> (res: Result<u64, NumberFault>)
    ensures
        match parsed_unsigned(s@, max as nat) {
            Ok(n) => res is Ok && res->Ok_0 == n,
            Err(fault) => res == Err::<u64, NumberFault>(fault),
        },
{
    let chars = text::chars_of(s);
    let n: usize = chars.len();
    let start: usize = if n > 0 && chars[0] == '+' {
        1
    } else {
        0
    };
    let ghost digits = s@.subrange(start as int, n as int);
    assert(start == 0 ==> digits == s@);
    assert(start == 1 ==> digits == s@.skip(1));
    if start == n {
        return Err(NumberFault::InvalidDigit);
    }
    let mut total: u64 = 0;
    let mut i: usize = start;
    while i < n
        invariant
            start <= i <= n == chars.len(),
            start < n,
            chars@ == s@,
            digits == s@.subrange(start as int, n as int),
            digits == (if s@.len() > 0 && s@[0] == '+' {
                s@.skip(1)
            } else {
                s@
            }),
            is_digits(digits.take(i - start)),
            total == decimal_value(digits.take(i - start)),
            total <= max,
        decreases n - i,
    {
        let ghost read = digits.take(i - start);
        let ghost next = digits.take(i + 1 - start);
        assert(next.drop_last() == read);
        assert(next.last() == chars@[i as int]);
        assert(digits[i - start] == chars@[i as int]);
        proof {
            lemma_digit_run(digits, i - start);
        }
        if !digit(chars[i]) {
            return Err(NumberFault::InvalidDigit);
        }
        let d: u64 = (chars[i] as u32 - '0' as u32) as u64;
        proof {
            assert forall|j: int| 0 <= j < next.len() implies is_digit(#[trigger] next[j]) by {
                if j < read.len() {
                    assert(is_digit(read[j]));
                }
            }
            lemma_digit_run(digits, i + 1 - start);
            let run = digits.take(digit_run(digits) as int);
            assert(run.take(i + 1 - start) == next);
            lemma_value_prefix(run, i + 1 - start);
            lemma_value_prefix(digits, i + 1 - start);
        }
        match total.checked_mul(10) {
            None => {
                return Err(NumberFault::TooLarge);
            },
            Some(shifted) => match shifted.checked_add(d) {
                None => {
                    return Err(NumberFault::TooLarge);
                },
                Some(sum) => {
                    if sum > max {
                        return Err(NumberFault::TooLarge);
                    }
                    total = sum;
                },
            },
        }
        i = i + 1;
    }
    assert(digits.take(n - start) == digits);
    Ok(total)
}

fn digit_text(d: u64) -> (res: &'static str)
    requires
        d < 10,
    ensures
        res@ == seq![digit_char(d as nat)],
{
    proof {
        reveal_strlit("0");
        reveal_strlit("1");
        reveal_strlit("2");
        reveal_strlit("3");
        reveal_strlit("4");
        reveal_strlit("5");
        reveal_strlit("6");
        reveal_strlit("7");
        reveal_strlit("8");
        reveal_strlit("9");
    }
    match d {
        0 => "0",
        1 => "1",
        2 => "2",
        3 => "3",
        4 => "4",
        5 => "5",
        6 => "6",
        7 => "7",
        8 => "8",
        _ => "9",
    }
}

/// Writes `n` in decimal.
pub fn decimal_text(n: u64) -> (res: String)
    ensures
        res@ == decimal_digits(n as nat),
    decreases n,
{
    if n < 10 {
        digit_text(n).to_owned()
    } else {
        let mut out: String = decimal_text(n / 10);
        out.append(digit_text(n % 10));
        assert(out@ == decimal_digits((n / 10) as nat).push(digit_char((n % 10) as nat)));
        out
    }
}

} // verus!
