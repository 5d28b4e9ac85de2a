//! SenML packs (RFC 8428) in JSON: one header record with the base fields, then
//! plain records, each with a name, an optional unit, an optional time offset
//! and a number or a text.
//!
//! Numbers stay the decimal literals they were published as, and are scaled by
//! an exact shift of their digits.
use vstd::prelude::*;

use crate::decimal;
use crate::decimal::{
    decimal_value, is_decimal_literal, is_digits, literal_parts, pow10, rounded_quotient, without_minus,
};
use crate::json;
use crate::text;

verus! {

/// What a record holds.
#[derive(Debug, Clone, PartialEq)]
pub enum Value {
    /// A decimal literal, exactly as published (such as `236.40`).
    Number(String),
    /// A text (`vs`), for enumerations such as `device/status`.
    Text(String),
}

#[derive(Debug, Clone, PartialEq)]
pub struct Record {
    pub name: String,
    /// The record's own unit, or else the pack's base unit.
    pub unit: Option<String>,
    /// Seconds relative to the pack's base time.
    pub time_offset: i64,
    pub value: Value,
}

#[derive(Debug, Clone, PartialEq)]
pub struct Pack {
    /// The pack's base time, in unix seconds.
    pub base_time: i64,
    pub records: Vec<Record>,
}

#[derive(Debug)]
pub enum PackError {
    /// The payload is no array of records.
    Json(serde_json::Error),
    /// No record has a base time, or the last one that has it cannot be read.
    MissingHeader,
}

impl PackError {
    /// Whether `text` is what to tell of this error: for a JSON error, what that
    /// error displays as goes behind the colon.
    pub open spec fn told_by(&self, text: Seq<char>) -> bool {
        match self {
            PackError::Json(error) => exists|shown: String| #[trigger]
                vstd::string::to_string_from_display_ensures::<serde_json::Error>(error, shown)
                    && text == "senml pack is not valid JSON: "@ + shown@,
            PackError::MissingHeader => text == "senml pack has no base-time header record"@,
        }
    }

    pub fn message(&self) -> (res: String)
        ensures
            self.told_by(res@),
    {
        match self {
            PackError::Json(error) => {
                let mut out: String = "senml pack is not valid JSON: ".to_owned();
                out.append(error.to_string().as_str());
                out
            },
            PackError::MissingHeader => "senml pack has no base-time header record".to_owned(),
        }
    }
}

/// One array element as it stands in the payload, numbers by their literals.
/// Base fields and regular fields may stand in the same record.
#[derive(Debug, Clone, PartialEq)]
pub struct RawRecord {
    pub bn: Option<String>,
    pub bt: Option<String>,
    pub bu: Option<String>,
    pub n: Option<String>,
    pub u: Option<String>,
    pub t: Option<String>,
    pub v: Option<String>,
    pub vs: Option<String>,
}

pub enum ValueView {
    Number(Seq<char>),
    Text(Seq<char>),
}

pub struct RecordView {
    pub name: Seq<char>,
    pub unit: Option<Seq<char>>,
    pub time_offset: i64,
    pub value: ValueView,
}

pub struct PackView {
    pub base_time: i64,
    pub records: Seq<RecordView>,
}

pub struct RawRecordView {
    pub bn: Option<Seq<char>>,
    pub bt: Option<Seq<char>>,
    pub bu: Option<Seq<char>>,
    pub n: Option<Seq<char>>,
    pub u: Option<Seq<char>>,
    pub t: Option<Seq<char>>,
    pub v: Option<Seq<char>>,
    pub vs: Option<Seq<char>>,
}

impl DeepView for Value {
    type V = ValueView;

    open spec fn deep_view(&self) -> ValueView {
        match self {
            Value::Number(literal) => ValueView::Number(literal@),
            Value::Text(text) => ValueView::Text(text@),
        }
    }
}

impl DeepView for Record {
    type V = RecordView;

    open spec fn deep_view(&self) -> RecordView {
        RecordView {
            name: self.name@,
            unit: self.unit.deep_view(),
            time_offset: self.time_offset,
            value: self.value.deep_view(),
        }
    }
}

impl DeepView for Pack {
    type V = PackView;

    open spec fn deep_view(&self) -> PackView {
        PackView { base_time: self.base_time, records: self.records.deep_view() }
    }
}

impl DeepView for RawRecord {
    type V = RawRecordView;

    open spec fn deep_view(&self) -> RawRecordView {
        RawRecordView {
            bn: self.bn.deep_view(),
            bt: self.bt.deep_view(),
            bu: self.bu.deep_view(),
            n: self.n.deep_view(),
            u: self.u.deep_view(),
            t: self.t.deep_view(),
            v: self.v.deep_view(),
            vs: self.vs.deep_view(),
        }
    }
}

/// The fields of a record, in the order of the array form.
pub open spec fn record_fields() -> Seq<Seq<char>> {
    seq!["bn"@, "bt"@, "bu"@, "n"@, "u"@, "t"@, "v"@, "vs"@]
}

/// The record that a JSON structure holds; `None` where it is no structure or a
/// field is of another type.
pub open spec fn raw_record(document: Seq<u8>) -> Option<RawRecordView> {
    match json::structure(document, record_fields()) {
        Some(fields) => {
            let bn = json::text_field(fields[0]);
            let bt = json::number_field(fields[1]);
            let bu = json::text_field(fields[2]);
            let n = json::text_field(fields[3]);
            let u = json::text_field(fields[4]);
            let t = json::number_field(fields[5]);
            let v = json::number_field(fields[6]);
            let vs = json::text_field(fields[7]);
            if bn is Some && bt is Some && bu is Some && n is Some && u is Some && t is Some && v
                is Some && vs is Some {
                Some(
                    RawRecordView {
                        bn: bn->0,
                        bt: bt->0,
                        bu: bu->0,
                        n: n->0,
                        u: u->0,
                        t: t->0,
                        v: v->0,
                        vs: vs->0,
                    },
                )
            } else {
                None
            }
        },
        None => None,
    }
}

/// The records that a payload holds; `None` where it is not an array or one of
/// its elements is no record.
pub open spec fn raw_records(payload: Seq<u8>) -> Option<Seq<RawRecordView>> {
    match json::elements(payload) {
        Some(elements) => if forall|i: int|
            0 <= i < elements.len() ==> raw_record(#[trigger] elements[i]) is Some {
            Some(Seq::new(elements.len(), |i: int| raw_record(elements[i])->0))
        } else {
            None
        },
        None => None,
    }
}

/// The number of whole seconds that a literal denotes, rounded; `None` where it
/// is not a decimal.
pub open spec fn seconds(literal: Seq<char>) -> Option<i64> {
    scaled_literal(literal, 0)
}

/// Whether the numbers of a record come out as they stand in it, digit for digit.
pub open spec fn record_numbers_kept(document: Seq<u8>) -> bool {
    json::structure(document, record_fields()) matches Some(fields) ==> json::number_kept(fields[1])
        && json::number_kept(fields[5]) && json::number_kept(fields[6])
}

/// Whether the numbers of a payload's records come out as they stand in it,
/// digit for digit.
pub open spec fn numbers_kept(payload: Seq<u8>) -> bool {
    json::elements(payload) matches Some(elements) ==> forall|i: int|
        0 <= i < elements.len() ==> record_numbers_kept(#[trigger] elements[i])
}

/// The base time in force behind `raw`: the one of the last record that has one.
/// Where that cannot be read there is none: an earlier one no longer holds.
pub open spec fn base_time(raw: Seq<RawRecordView>) -> Option<i64>
    decreases raw.len(),
{
    if raw.len() == 0 {
        None
    } else {
        match raw.last().bt {
            Some(literal) => seconds(literal),
            None => base_time(raw.drop_last()),
        }
    }
}

/// The base unit in force behind `raw`: the last one that a record set.
pub open spec fn base_unit(raw: Seq<RawRecordView>) -> Option<Seq<char>>
    decreases raw.len(),
{
    if raw.len() == 0 {
        None
    } else {
        match raw.last().bu {
            Some(unit) => Some(unit),
            None => base_unit(raw.drop_last()),
        }
    }
}

/// The offset of a record from the base time; `None` where it cannot be read.
pub open spec fn offset(raw: RawRecordView) -> Option<i64> {
    match raw.t {
        Some(literal) => seconds(literal),
        None => Some(0),
    }
}

/// The reading that a record holds, under the base unit in force. A record
/// without a name or a value holds none, nor does one whose time cannot be read.
/// A number goes before a text.
pub open spec fn reading(raw: RawRecordView, unit: Option<Seq<char>>) -> Option<RecordView> {
    if raw.n is Some && (raw.v is Some || raw.vs is Some) && offset(raw) is Some {
        Some(
            RecordView {
                name: raw.n->0,
                unit: if raw.u is Some {
                    raw.u
                } else {
                    unit
                },
                time_offset: offset(raw)->0,
                value: match raw.v {
                    Some(literal) => ValueView::Number(literal),
                    None => ValueView::Text(raw.vs->0),
                },
            },
        )
    } else {
        None
    }
}

/// The readings that `raw` holds, in order. Base fields apply to their own
/// record and to those behind it.
pub open spec fn readings(raw: Seq<RawRecordView>) -> Seq<RecordView>
    decreases raw.len(),
{
    if raw.len() == 0 {
        Seq::empty()
    } else {
        let before = readings(raw.drop_last());
        match reading(raw.last(), base_unit(raw)) {
            Some(record) => before.push(record),
            None => before,
        }
    }
}

/// The pack that `raw` makes up; `None` where there is no base time.
pub open spec fn pack_of(raw: Seq<RawRecordView>) -> Option<PackView> {
    match base_time(raw) {
        Some(base_time) => Some(PackView { base_time, records: readings(raw) }),
        None => None,
    }
}

/// The magnitude of `whole.fraction` times ten to the power `exp`, rounded to
/// the nearest integer, halves away from zero.
pub open spec fn scaled_magnitude(whole: Seq<char>, fraction: Seq<char>, exp: nat) -> nat {
    rounded_quotient(decimal_value(whole + fraction) * pow10(exp), pow10(fraction.len()))
}

/// A decimal literal times ten to the power `exp`; `None` where `raw` is no
/// decimal literal or the result leaves the range of `i64`.
pub open spec fn scaled_literal(raw: Seq<char>, exp: nat) -> Option<i64> {
    let (whole, fraction) = literal_parts(without_minus(raw));
    let magnitude = scaled_magnitude(whole, fraction, exp);
    if is_decimal_literal(raw) && magnitude <= i64::MAX {
        Some(
            if raw[0] == '-' {
                (-magnitude) as i64
            } else {
                magnitude as i64
            },
        )
    } else {
        None
    }
}

/// The digits of `whole.fraction` down to the `exp`th after the point.
spec fn kept_digits(whole: Seq<char>, fraction: Seq<char>, exp: nat) -> Seq<char> {
    Seq::new(
        whole.len() + exp,
        |i: int|
            if i < whole.len() {
                whole[i]
            } else if i - whole.len() < fraction.len() {
                fraction[i - whole.len()]
            } else {
                '0'
            },
    )
}

proof fn lemma_zeros(n: nat)
    ensures
        decimal_value(Seq::new(n, |i: int| '0')) == 0,
    decreases n,
{
    if n > 0 {
        let zeros = Seq::new(n, |i: int| '0');
        lemma_zeros((n - 1) as nat);
        assert(zeros.drop_last() == Seq::new((n - 1) as nat, |i: int| '0'));
    }
}

/// Where the fraction has at most `exp` digits, nothing is rounded.
proof fn lemma_nothing_dropped(whole: Seq<char>, fraction: Seq<char>, exp: nat)
    requires
        fraction.len() <= exp,
    ensures
        decimal_value(kept_digits(whole, fraction, exp)) == scaled_magnitude(whole, fraction, exp),
{
    let pad = (exp - fraction.len()) as nat;
    let zeros = Seq::new(pad, |i: int| '0');
    assert(kept_digits(whole, fraction, exp) == (whole + fraction) + zeros);
    decimal::lemma_value_concat(whole + fraction, zeros);
    lemma_zeros(pad);
    decimal::lemma_pow10_sum(pad, fraction.len());
    decimal::lemma_pow10_positive(fraction.len());
    let n = decimal_value(whole + fraction) as int;
    let p = pow10(pad) as int;
    let q = pow10(fraction.len()) as int;
    assert(2 * (n * (p * q)) + q == (n * p) * (2 * q) + q) by (nonlinear_arith);
    vstd::arithmetic::div_mod::lemma_fundamental_div_mod_converse(
        2 * (n * (p * q)) + q,
        2 * q,
        n * p,
        q,
    );
}

/// Where the fraction has more digits, the first one that is dropped decides
/// the rounding.
proof fn lemma_first_dropped_rounds(whole: Seq<char>, fraction: Seq<char>, exp: nat)
    requires
        is_digits(fraction),
        exp < fraction.len(),
    ensures
        decimal_value(kept_digits(whole, fraction, exp)) + (if fraction[exp as int] >= '5' {
            1nat
        } else {
            0nat
        }) == scaled_magnitude(whole, fraction, exp),
{
    let head = fraction.take(exp as int);
    let rest = fraction.skip(exp as int);
    let tail = rest.skip(1);
    let first = rest.take(1);
    let r = rest.len();
    assert(kept_digits(whole, fraction, exp) == whole + head);
    assert(whole + fraction == (whole + head) + rest);
    decimal::lemma_value_concat(whole + head, rest);
    assert(rest == first + tail);
    decimal::lemma_value_concat(first, tail);
    assert(first.drop_last() == Seq::<char>::empty());
    assert(decimal_value(first.drop_last()) == 0);
    assert(decimal_value(first) == decimal::digit_value(rest[0]));
    assert(rest[0] == fraction[exp as int]);
    assert(is_digits(tail)) by {
        assert forall|i: int| 0 <= i < tail.len() implies decimal::is_digit(#[trigger] tail[i]) by {
            assert(tail[i] == fraction[i + exp + 1]);
        }
    }
    assert(decimal::is_digit(fraction[exp as int]));
    decimal::lemma_value_bound(tail);
    decimal::lemma_pow10_sum(r, exp);
    decimal::lemma_pow10_positive(tail.len());
    decimal::lemma_pow10_positive(exp);
    assert(r + exp == fraction.len());
    assert(pow10(r) == 10 * pow10(tail.len()));
    let a = decimal_value(whole + head) as int;
    let d = decimal_value(first) as int;
    let t = decimal_value(tail) as int;
    let p = pow10(tail.len()) as int;
    let e = pow10(exp) as int;
    let n = a * (10 * p) + (d * p + t);
    let up = if d >= 5 {
        1int
    } else {
        0int
    };
    let over = 2 * (d * p + t) + 10 * p - up * (20 * p);
    assert(0 <= over < 20 * p) by (nonlinear_arith)
        requires
            0 <= d <= 9,
            0 <= t < p,
            up == (if d >= 5 {
                1int
            } else {
                0int
            }),
            over == 2 * (d * p + t) + 10 * p - up * (20 * p),
    ;
    assert(2 * (n * e) + (10 * p) * e == (a + up) * (2 * ((10 * p) * e)) + over * e)
        by (nonlinear_arith)
        requires
            n == a * (10 * p) + (d * p + t),
            over == 2 * (d * p + t) + 10 * p - up * (20 * p),
    ;
    assert(0 <= over * e < 2 * ((10 * p) * e)) by (nonlinear_arith)
        requires
            0 <= over < 20 * p,
            e > 0,
    ;
    vstd::arithmetic::div_mod::lemma_fundamental_div_mod_converse(
        2 * (n * e) + (10 * p) * e,
        2 * ((10 * p) * e),
        a + up,
        over * e,
    );
}

/// Scales a decimal literal by ten to the power `exp`, exactly:
/// `scale_decimal("236.40", 3)` is `236400`.
///
/// Fraction digits beyond the `exp`th are rounded, halves away from zero.
/// Anything but a plain `[-]digits[.digits]` (an exponent, an empty text, a
/// result out of range) gives `None`: callers skip the reading rather than guess.
pub fn scale_decimal(raw: &str, exp: u32) -> (res: Option<i64>)
    ensures
        res == scaled_literal(raw@, exp as nat),
{
    let chars = text::chars_of(raw);
    let n: usize = chars.len();
    let negative: bool = n > 0 && chars[0] == '-';
    let start: usize = if negative {
        1
    } else {
        0
    };
    let digits = raw.substring_char(start, n);
    let digit_chars = text::chars_of(digits);
    let m: usize = digit_chars.len();
    let point: usize = text::find(&digit_chars, '.');
    let fraction_start: usize = if point < m {
        point + 1
    } else {
        m
    };
    let ghost all = digits@;
    let ghost whole = literal_parts(all).0;
    let ghost fraction = literal_parts(all).1;
    proof {
        assert(all == without_minus(raw@));
        assert(whole == all.subrange(0, point as int));
        assert(fraction == all.subrange(fraction_start as int, m as int));
        text::lemma_first_at_absent(all, '.');
    }
    let fraction_len: usize = m - fraction_start;
    if point == 0 || (point < m && fraction_len == 0) {
        return None;
    }
    if !decimal::all_digits(&digit_chars, 0, point) || !decimal::all_digits(
        &digit_chars,
        fraction_start,
        m,
    ) {
        return None;
    }
    assert(is_decimal_literal(raw@));
    let ghost kept = kept_digits(whole, fraction, exp as nat);
    let ghost rounds_up: nat = if exp < fraction.len() && fraction[exp as int] >= '5' {
        1
    } else {
        0
    };
    proof {
        if exp < fraction.len() {
            lemma_first_dropped_rounds(whole, fraction, exp as nat);
        } else {
            lemma_nothing_dropped(whole, fraction, exp as nat);
        }
    }
    let ghost target = scaled_magnitude(whole, fraction, exp as nat);
    assert(target == decimal_value(kept) + rounds_up);

    let mut magnitude: i64 = 0;
    let mut i: usize = 0;
    while i < point
        invariant
            i <= point <= m == digit_chars.len(),
            digit_chars@ == all,
            whole == all.subrange(0, point as int),
            is_digits(whole),
            kept == kept_digits(whole, fraction, exp as nat),
            target == decimal_value(kept) + rounds_up,
            magnitude >= 0,
            magnitude == decimal_value(kept.take(i as int)),
            target > i64::MAX ==> scaled_literal(raw@, exp as nat) is None,
        decreases point - i,
    {
        assert(kept[i as int] == whole[i as int]);
        assert(decimal::is_digit(whole[i as int]));
        proof {
            decimal::lemma_value_prefix(kept, i + 1);
            assert(kept.take(i + 1).drop_last() == kept.take(i as int));
        }
        match push_digit(magnitude, digit_chars[i]) {
            Some(next) => {
                magnitude = next;
            },
            None => {
                return None;
            },
        }
        i = i + 1;
    }
    let mut taken: u32 = 0;
    while taken < exp
        invariant
            taken <= exp,
            point <= fraction_start <= m == digit_chars.len(),
            fraction_len == m - fraction_start,
            digit_chars@ == all,
            whole == all.subrange(0, point as int),
            fraction == all.subrange(fraction_start as int, m as int),
            is_digits(fraction),
            kept == kept_digits(whole, fraction, exp as nat),
            target == decimal_value(kept) + rounds_up,
            magnitude >= 0,
            magnitude == decimal_value(kept.take(point + taken)),
            target > i64::MAX ==> scaled_literal(raw@, exp as nat) is None,
        decreases exp - taken,
    {
        let c: char = if (taken as u64) < (fraction_len as u64) {
            digit_chars[fraction_start + taken as usize]
        } else {
            '0'
        };
        proof {
            assert(c == kept[point + taken]);
            if taken < fraction_len {
                assert(decimal::is_digit(fraction[taken as int]));
            }
            decimal::lemma_value_prefix(kept, point + taken + 1);
            assert(kept.take(point + taken + 1).drop_last() == kept.take(point + taken));
        }
        match push_digit(magnitude, c) {
            Some(next) => {
                magnitude = next;
            },
            None => {
                return None;
            },
        }
        taken = taken + 1;
    }
    assert(kept.take(point + exp) == kept);
    if (exp as u64) < (fraction_len as u64) && digit_chars[fraction_start + exp as usize] >= '5' {
        assert(fraction[exp as int] >= '5');
        match magnitude.checked_add(1) {
            Some(next) => {
                magnitude = next;
            },
            None => {
                return None;
            },
        }
    }
    assert(magnitude == target);
    Some(
        if negative {
            -magnitude
        } else {
            magnitude
        },
    )
}

/// Appends a digit to a number, where the result stays in range.
fn push_digit(magnitude: i64, c: char) -> (res: Option<i64>)
    requires
        magnitude >= 0,
        decimal::is_digit(c),
    ensures
        match res {
            Some(next) => next == 10 * magnitude + decimal::digit_value(c),
            None => 10 * magnitude + decimal::digit_value(c) > i64::MAX,
        },
{
    match magnitude.checked_mul(10) {
        Some(shifted) => shifted.checked_add((c as u32 - '0' as u32) as i64),
        None => None,
    }
}

/// Reads one record.
fn read_record(payload: &[u8], span: json::Span) -> (res: Result<RawRecord, serde_json::Error>)
    requires
        span.within(payload@),
    ensures
        match res {
            Ok(record) => raw_record(span.text(payload@)) == Some(record.deep_view())
                && record_numbers_kept(span.text(payload@)),
            Err(_) => raw_record(span.text(payload@)) is None,
        },
{
    let names: Vec<&str> = vec!["bn", "bt", "bu", "n", "u", "t", "v", "vs"];
    assert(names.deep_view() == record_fields());
    let json::Structure { fields, fault } = json::read_structure(
        payload,
        span,
        "RawRecord",
        &names,
    );
    let mut first: Option<json::Fault> = fault;
    let bn = json::settle(
        json::read_text_field(payload, fields[0]),
        fields[0],
        &mut first,
    );
    let bt = json::settle(
        json::read_number_field(payload, fields[1]),
        fields[1],
        &mut first,
    );
    let bu = json::settle(
        json::read_text_field(payload, fields[2]),
        fields[2],
        &mut first,
    );
    let n = json::settle(
        json::read_text_field(payload, fields[3]),
        fields[3],
        &mut first,
    );
    let u = json::settle(
        json::read_text_field(payload, fields[4]),
        fields[4],
        &mut first,
    );
    let t = json::settle(
        json::read_number_field(payload, fields[5]),
        fields[5],
        &mut first,
    );
    let v = json::settle(
        json::read_number_field(payload, fields[6]),
        fields[6],
        &mut first,
    );
    let vs = json::settle(
        json::read_text_field(payload, fields[7]),
        fields[7],
        &mut first,
    );
    match first {
        Some(fault) => Err(fault.error),
        None => Ok(RawRecord { bn, bt, bu, n, u, t, v, vs }),
    }
}

/// Reads the records of a payload.
fn read_records(payload: &[u8]) -> (res: Result<Vec<RawRecord>, serde_json::Error>)
    ensures
        match res {
            Ok(records) => raw_records(payload@) == Some(records.deep_view()) && numbers_kept(
                payload@,
            ),
            Err(_) => raw_records(payload@) is None,
        },
{
    let whole = json::Span { start: 0, end: payload.len() };
    assert(whole.text(payload@) == payload@);
    let json::Elements { spans, faulty, fault } = json::read_elements(payload, whole);
    let ghost texts = json::texts(spans@, payload@);
    let mut records: Vec<RawRecord> = Vec::new();
    let mut i: usize = 0;
    while i < spans.len()
        invariant
            i <= spans.len(),
            json::all_within(spans@, payload@),
            texts == json::texts(spans@, payload@),
            match fault {
                None => json::elements(payload@) == Some(texts),
                Some(_) => json::elements(payload@) is None,
            },
            records.len() == i,
            forall|j: int|
                0 <= j < i ==> raw_record(texts[j]) == Some((#[trigger] records@[j]).deep_view()),
            forall|j: int| 0 <= j < i ==> record_numbers_kept(#[trigger] texts[j]),
        decreases spans.len() - i,
    {
        assert(texts[i as int] == spans[i as int].text(payload@));
        records.push(read_record(payload, spans[i])?);
        i = i + 1;
    }
    if let Some(error) = fault {
        if let Some(span) = faulty {
            // The record itself tells more of what is wrong with it.
            read_record(payload, span)?;
        }
        return Err(error);
    }
    assert forall|j: int| 0 <= j < texts.len() implies raw_record(#[trigger] texts[j]) is Some by {
        assert(raw_record(texts[j]) == Some(records@[j].deep_view()));
    }
    assert(records.deep_view() == Seq::new(texts.len(), |i: int| raw_record(texts[i])->0));
    Ok(records)
}

/// Makes a pack of the records of a payload.
///
/// A record without a name or without a value is skipped, and so is one whose time
/// cannot be read: nothing is invented.
pub fn pack_from_records(raw: Vec<RawRecord>) -> (res: Result<Pack, PackError>)
    ensures
        match res {
            Ok(pack) => pack_of(raw.deep_view()) == Some(pack.deep_view()),
            Err(PackError::MissingHeader) => pack_of(raw.deep_view()) is None,
            Err(PackError::Json(_)) => false,
        },
{
    let ghost all = raw.deep_view();
    let mut time: Option<i64> = None;
    let mut unit: Option<String> = None;
    let mut records: Vec<Record> = Vec::new();
    let mut i: usize = 0;
    assert(all.take(0) == Seq::<RawRecordView>::empty());
    assert(records.deep_view() == Seq::<RecordView>::empty());
    while i < raw.len()
        invariant
            i <= raw.len(),
            all == raw.deep_view(),
            time == base_time(all.take(i as int)),
            unit.deep_view() == base_unit(all.take(i as int)),
            records.deep_view() == readings(all.take(i as int)),
        decreases raw.len() - i,
    {
        let record = &raw[i];
        proof {
            assert(all.take(i + 1).drop_last() == all.take(i as int));
            assert(all.take(i + 1).last() == record.deep_view());
        }
        if let Some(literal) = &record.bt {
            time = scale_decimal(literal.as_str(), 0);
        }
        if let Some(base) = &record.bu {
            unit = Some(base.clone());
        }
        let ghost before = records.deep_view();
        if let Some(name) = &record.n {
            let value: Option<Value> = match (&record.v, &record.vs) {
                (Some(literal), _) => Some(Value::Number(literal.clone())),
                (None, Some(text)) => Some(Value::Text(text.clone())),
                (None, None) => None,
            };
            let offset: Option<i64> = match &record.t {
                Some(literal) => scale_decimal(literal.as_str(), 0),
                None => Some(0),
            };
            if let (Some(value), Some(time_offset)) = (value, offset) {
                let own: Option<String> = match &record.u {
                    Some(own) => Some(own.clone()),
                    None => match &unit {
                        Some(base) => Some(base.clone()),
                        None => None,
                    },
                };
                let next = Record { name: name.clone(), unit: own, time_offset, value };
                let ghost view = next.deep_view();
                records.push(next);
                assert(records.deep_view() == before.push(view));
            }
        }
        i = i + 1;
    }
    assert(all.take(raw.len() as int) == all);
    match time {
        Some(base_time) => Ok(Pack { base_time, records }),
        None => Err(PackError::MissingHeader),
    }
}

/// Parses a retained `instantaneous` payload. Decimal digits, trailing zeros too,
/// come out as they were published.
pub fn parse_pack(payload: &[u8]) -> (res: Result<Pack, PackError>)
    ensures
        match res {
            Ok(pack) => raw_records(payload@) is Some && pack_of(raw_records(payload@)->0) == Some(
                pack.deep_view(),
            ),
            Err(PackError::MissingHeader) => raw_records(payload@) is Some && pack_of(
                raw_records(payload@)->0,
            ) is None,
            Err(PackError::Json(_)) => raw_records(payload@) is None,
        },
        !(res matches Err(PackError::Json(_))) ==> numbers_kept(payload@),
{
    match read_records(payload) {
        Ok(raw) => pack_from_records(raw),
        Err(error) => Err(PackError::Json(error)),
    }
}

} // verus!
