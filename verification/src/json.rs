//! JSON documents, read through `serde_json`. A document and each part of one
//! is the bytes of its text; what `serde_json` makes of it has a name here, and
//! the rest of the crate speaks of those names.
use vstd::prelude::*;

use crate::decimal::{
    decimal_value, is_decimal_literal, is_digits, literal_parts, without_minus,
};
use crate::faults::{expecting_message, in_place, length_message, repeated_message, tell_at};
use crate::text;

use serde::de::IgnoredAny;
use serde::Deserialize;
use std::collections::BTreeMap;
use vstd::slice::slice_subrange;

verus! {

#[verifier::external_type_specification]
#[verifier::external_body]
pub struct ExJsonError(serde_json::Error);

pub const BRACKET_OPEN: u8 = 0x5B;

pub const BRACKET_CLOSE: u8 = 0x5D;

pub const BRACE_OPEN: u8 = 0x7B;

pub const BRACE_CLOSE: u8 = 0x7D;

pub const COMMA: u8 = 0x2C;

pub const COLON: u8 = 0x3A;

/// Where the first value of a text ends, with the white space before it;
/// `None` where there is no value, or none that JSON knows.
pub uninterp spec fn json_end(text: Seq<u8>) -> Option<nat>;

/// What a string denotes, or `Some(None)` for `null`; `None` for any other
/// document.
pub uninterp spec fn json_text(document: Seq<u8>) -> Option<Option<Seq<char>>>;

/// A number's literal, or `Some(None)` for `null`; `None` for any other document.
/// An exponent is marked by a small `e` and always signed.
pub uninterp spec fn json_number(document: Seq<u8>) -> Option<Option<Seq<char>>>;

/// An object of integers of 32 unsigned bits, ordered by name, or `Some(None)`
/// for `null`; `None` for any other document.
pub uninterp spec fn json_u32_members(document: Seq<u8>) -> Option<Option<Seq<(Seq<char>, u32)>>>;

/// Whether a document is an array of any values.
pub uninterp spec fn json_is_list(document: Seq<u8>) -> bool;

/// Whether a document is an object of any members.
pub uninterp spec fn json_is_object(document: Seq<u8>) -> bool;

/// Whether a text starts with a value that can be kept.
pub uninterp spec fn json_starts(text: Seq<u8>) -> bool;

/// White space between the parts of a document.
pub open spec fn is_space(b: u8) -> bool {
    b == 0x20 || b == 0x0A || b == 0x09 || b == 0x0D
}

/// Without the white space in front.
pub open spec fn trimmed(text: Seq<u8>) -> Seq<u8>
    decreases text.len(),
{
    if text.len() > 0 && is_space(text[0]) {
        trimmed(text.skip(1))
    } else {
        text
    }
}

/// Without the white space behind.
pub open spec fn trimmed_end(text: Seq<u8>) -> Seq<u8>
    decreases text.len(),
{
    if text.len() > 0 && is_space(text.last()) {
        trimmed_end(text.drop_last())
    } else {
        text
    }
}

/// The characters of a document without the white space around it, each byte
/// for itself.
pub open spec fn characters(document: Seq<u8>) -> Seq<char> {
    trimmed_end(trimmed(document)).map_values(|b: u8| b as char)
}

/// Whether `number` is a number of JSON without an exponent: a decimal literal
/// without leading zeros.
pub open spec fn is_plain_number(number: Seq<char>) -> bool {
    let (whole, _) = literal_parts(without_minus(number));
    is_decimal_literal(number) && (whole[0] == '0' ==> whole.len() == 1)
}

/// An unsigned integer up to `max`, or `Some(None)` for `null`; `None` for any
/// other document.
pub open spec fn json_unsigned(document: Seq<u8>, max: nat) -> Option<Option<nat>> {
    let number = characters(document);
    if number == "null"@ {
        Some(None)
    } else if number.len() > 0 && is_digits(number) && (number[0] == '0' ==> number.len() == 1)
        && decimal_value(number) <= max {
        Some(Some(decimal_value(number)))
    } else {
        None
    }
}

/// An integer of 32 unsigned bits.
pub open spec fn json_u32(document: Seq<u8>) -> Option<Option<u32>> {
    match json_unsigned(document, u32::MAX as nat) {
        Some(Some(n)) => Some(Some(n as u32)),
        Some(None) => Some(None),
        None => None,
    }
}

/// An integer of 64 unsigned bits.
pub open spec fn json_u64(document: Seq<u8>) -> Option<Option<u64>> {
    match json_unsigned(document, u64::MAX as nat) {
        Some(Some(n)) => Some(Some(n as u64)),
        Some(None) => Some(None),
        None => None,
    }
}

/// Calls `serde_json::Deserializer::from_slice` and takes the first value of the
/// stream, of the type `serde::de::IgnoredAny`, which is any value. Where it
/// ends, by `StreamDeserializer::byte_offset`, is named `json_end`: it depends on
/// the bytes alone. It is behind at least one byte, and within the text.
#[verifier::external_body]
pub(crate) fn first_end(text: &[u8]) -> (res: Result<Option<usize>, serde_json::Error>)
    ensures
        match res {
            Ok(Some(end)) => json_end(text@) == Some(end as nat) && 0 < end <= text@.len(),
            _ => json_end(text@) is None,
        },
{
    let mut values = serde_json::Deserializer::from_slice(text).into_iter::<IgnoredAny>();
    let first = values.next().transpose()?;
    Ok(first.map(|_| values.byte_offset()))
}

/// Calls `serde::de::Error::custom` of `serde_json::Error`, which makes an error
/// with the given message. Where that ends in ` at line 1 column 2` or the like,
/// the error is placed there. Nothing is stated of it.
#[verifier::external_body]
pub(crate) fn fault(message: &str) -> serde_json::Error {
    serde::de::Error::custom(message)
}

/// Calls `serde_json::from_slice` for a `Vec` of `serde::de::IgnoredAny`. Whether
/// it succeeds is named `json_is_list`: it depends on the bytes alone. Of the error
/// nothing is stated.
#[verifier::external_body]
pub(crate) fn check_list(document: &[u8]) -> (res: Result<(), serde_json::Error>)
    ensures
        res is Ok <==> json_is_list(document@),
{
    serde_json::from_slice::<Vec<IgnoredAny>>(document).map(|_| ())
}

/// Calls `serde_json::from_slice` for a map of `serde::de::IgnoredAny` by name.
/// Whether it succeeds is named `json_is_object`: it depends on the bytes alone.
/// Of the error nothing is stated.
#[verifier::external_body]
pub(crate) fn check_object(document: &[u8]) -> (res: Result<(), serde_json::Error>)
    ensures
        res is Ok <==> json_is_object(document@),
{
    serde_json::from_slice::<BTreeMap<String, IgnoredAny>>(document).map(|_| ())
}

/// Calls `serde_json::Deserializer::from_slice` and `serde_json::Value`'s
/// `deserialize` on it, which reads the first value of a text and leaves what
/// follows it. Whether it succeeds is named `json_starts`: it depends on the bytes
/// alone. Of the error nothing is stated.
#[verifier::external_body]
pub(crate) fn check_first(text: &[u8]) -> (res: Result<(), serde_json::Error>)
    ensures
        res is Ok <==> json_starts(text@),
{
    serde_json::Value::deserialize(&mut serde_json::Deserializer::from_slice(text)).map(|_| ())
}

/// Calls `serde_json::from_slice` for an optional string. Its outcome is named
/// `json_text`: it depends on the bytes alone.
#[verifier::external_body]
pub(crate) fn read_text(document: &[u8]) -> (res: Result<Option<String>, serde_json::Error>)
    ensures
        match res {
            Ok(value) => json_text(document@) == Some(value.deep_view()),
            Err(_) => json_text(document@) is None,
        },
{
    serde_json::from_slice(document)
}

/// Calls `serde_json::from_slice` for an optional number and takes the number's
/// literal with `serde_json::Number::as_str`. The outcome is named
/// `json_number`: it depends on the bytes alone. A number without an exponent
/// keeps its digits as they stand.
#[verifier::external_body]
pub(crate) fn read_number(document: &[u8]) -> (res: Result<Option<String>, serde_json::Error>)
    ensures
        match res {
            Ok(value) => json_number(document@) == Some(value.deep_view()),
            Err(_) => json_number(document@) is None,
        },
        is_plain_number(characters(document@)) ==> res is Ok && res->Ok_0.deep_view() == Some(
            characters(document@),
        ),
{
    let number: Option<serde_json::Number> = serde_json::from_slice(document)?;
    Ok(number.map(|literal| literal.as_str().to_owned()))
}

/// Calls `serde_json::from_slice` for an optional `u32`: `null`, or digits
/// without leading zeros that denote a number in range. Anything else is an error,
/// a sign, a fraction or an exponent too.
#[verifier::external_body]
pub(crate) fn read_u32(document: &[u8]) -> (res: Result<Option<u32>, serde_json::Error>)
    ensures
        match res {
            Ok(value) => json_u32(document@) == Some(value),
            Err(_) => json_u32(document@) is None,
        },
{
    serde_json::from_slice(document)
}

/// Calls `serde_json::from_slice` for an optional `u64`: `null`, or digits
/// without leading zeros that denote a number in range. Anything else is an error,
/// a sign, a fraction or an exponent too.
#[verifier::external_body]
pub(crate) fn read_u64(document: &[u8]) -> (res: Result<Option<u64>, serde_json::Error>)
    ensures
        match res {
            Ok(value) => json_u64(document@) == Some(value),
            Err(_) => json_u64(document@) is None,
        },
{
    serde_json::from_slice(document)
}

/// Calls `serde_json::from_slice` for an optional map of `u32` by name. Its
/// outcome is named `json_u32_members`: it depends on the bytes alone.
#[verifier::external_body]
pub(crate) fn read_u32_members(document: &[u8]) -> (res: Result<
    Option<Vec<(String, u32)>>,
    serde_json::Error,
>)
    ensures
        match res {
            Ok(members) => json_u32_members(document@) == Some(members.deep_view()),
            Err(_) => json_u32_members(document@) is None,
        },
{
    let raw: Option<BTreeMap<String, u32>> = serde_json::from_slice(document)?;
    Ok(raw.map(|members| members.into_iter().collect()))
}

/// Whether the first byte after white space is `mark`.
pub open spec fn opens(text: Seq<u8>, mark: u8) -> bool {
    trimmed(text).len() > 0 && trimmed(text)[0] == mark
}

/// What follows the first byte after white space.
pub open spec fn behind(text: Seq<u8>) -> Seq<u8> {
    trimmed(text).skip(1)
}

/// Whether `mark` closes the document: nothing but white space is around it.
pub open spec fn closes(text: Seq<u8>, mark: u8) -> bool {
    opens(text, mark) && trimmed(behind(text)).len() == 0
}

pub proof fn lemma_trimmed_length(text: Seq<u8>)
    ensures
        trimmed(text).len() <= text.len(),
    decreases text.len(),
{
    if text.len() > 0 && is_space(text[0]) {
        lemma_trimmed_length(text.skip(1));
    }
}

/// A list with `items` in front.
pub open spec fn preceded<T>(items: Seq<T>, rest: Option<Seq<T>>) -> Option<Seq<T>> {
    match rest {
        Some(more) => Some(items + more),
        None => None,
    }
}

/// The texts of an array's elements, from behind the bracket or a comma on.
pub open spec fn elements_from(text: Seq<u8>) -> Option<Seq<Seq<u8>>>
    decreases text.len(),
{
    match json_end(text) {
        Some(end) if 0 < end <= text.len() => {
            let element = text.take(end as int);
            let rest = text.skip(end as int);
            proof {
                lemma_trimmed_length(rest);
            }
            if opens(rest, COMMA) {
                preceded(seq![element], elements_from(behind(rest)))
            } else if closes(rest, BRACKET_CLOSE) {
                Some(seq![element])
            } else {
                None
            }
        },
        _ => None,
    }
}

/// The texts of an array's elements, in order; `None` where the document is not
/// an array.
pub open spec fn elements(document: Seq<u8>) -> Option<Seq<Seq<u8>>> {
    if !opens(document, BRACKET_OPEN) {
        None
    } else if closes(behind(document), BRACKET_CLOSE) {
        Some(Seq::empty())
    } else {
        elements_from(behind(document))
    }
}

/// An object's members, each with the text of its value, from behind the brace
/// or a comma on.
pub open spec fn members_from(text: Seq<u8>) -> Option<Seq<(Seq<char>, Seq<u8>)>>
    decreases text.len(),
{
    match json_end(text) {
        Some(end) if 0 < end <= text.len() => {
            let rest = text.skip(end as int);
            let value = behind(rest);
            match (json_text(text.take(end as int)), json_end(value)) {
                (Some(Some(name)), Some(length)) if opens(rest, COLON) && 0 < length
                    <= value.len() => {
                    let member = (name, value.take(length as int));
                    let more = value.skip(length as int);
                    proof {
                        lemma_trimmed_length(rest);
                        lemma_trimmed_length(more);
                    }
                    if opens(more, COMMA) {
                        preceded(seq![member], members_from(behind(more)))
                    } else if closes(more, BRACE_CLOSE) {
                        Some(seq![member])
                    } else {
                        None
                    }
                },
                _ => None,
            }
        },
        _ => None,
    }
}

/// An object's members, in order, each with the text of its value; `None` where
/// the document is not an object.
pub open spec fn members(document: Seq<u8>) -> Option<Seq<(Seq<char>, Seq<u8>)>> {
    if !opens(document, BRACE_OPEN) {
        None
    } else if closes(behind(document), BRACE_CLOSE) {
        Some(Seq::empty())
    } else {
        members_from(behind(document))
    }
}

/// The members called `name`.
pub open spec fn called(members: Seq<(Seq<char>, Seq<u8>)>, name: Seq<char>) -> Seq<
    (Seq<char>, Seq<u8>),
> {
    members.filter(|member: (Seq<char>, Seq<u8>)| member.0 == name)
}

/// The text of the one member called `name`, where there is one.
pub open spec fn member(members: Seq<(Seq<char>, Seq<u8>)>, name: Seq<char>) -> Option<Seq<u8>> {
    if called(members, name).len() == 1 {
        Some(called(members, name)[0].1)
    } else {
        None
    }
}

/// The texts of a structure's fields, in the order of `names`. A structure is an
/// object that may leave fields out, may hold others, and holds none of these
/// twice; or it is an array with one element for each field.
pub open spec fn structure(document: Seq<u8>, names: Seq<Seq<char>>) -> Option<
    Seq<Option<Seq<u8>>>,
> {
    match (members(document), elements(document)) {
        (Some(members), _) => if forall|i: int|
            0 <= i < names.len() ==> called(members, #[trigger] names[i]).len() <= 1 {
            Some(Seq::new(names.len(), |i: int| member(members, names[i])))
        } else {
            None
        },
        (None, Some(elements)) => if elements.len() == names.len() {
            Some(Seq::new(names.len(), |i: int| Some(elements[i])))
        } else {
            None
        },
        (None, None) => None,
    }
}

/// A field that holds a string; one that is absent or `null` holds none.
pub open spec fn text_field(field: Option<Seq<u8>>) -> Option<Option<Seq<char>>> {
    match field {
        Some(document) => json_text(document),
        None => Some(None),
    }
}

/// A field that holds a number, by its literal; one that is absent or `null`
/// holds none.
pub open spec fn number_field(field: Option<Seq<u8>>) -> Option<Option<Seq<char>>> {
    match field {
        Some(document) => json_number(document),
        None => Some(None),
    }
}

/// Whether a number without an exponent comes out of a field as it stands there.
pub open spec fn number_kept(field: Option<Seq<u8>>) -> bool {
    field matches Some(document) ==> is_plain_number(characters(document)) ==> number_field(field)
        == Some(Some(characters(document)))
}

pub open spec fn u32_field(field: Option<Seq<u8>>) -> Option<Option<u32>> {
    match field {
        Some(document) => json_u32(document),
        None => Some(None),
    }
}

pub open spec fn u64_field(field: Option<Seq<u8>>) -> Option<Option<u64>> {
    match field {
        Some(document) => json_u64(document),
        None => Some(None),
    }
}

pub open spec fn u32_members_field(field: Option<Seq<u8>>) -> Option<
    Option<Seq<(Seq<char>, u32)>>,
> {
    match field {
        Some(document) => json_u32_members(document),
        None => Some(None),
    }
}

/// A part of a payload.
#[derive(Debug, Clone, Copy, PartialEq, Eq, Structural)]
pub struct Span {
    pub start: usize,
    pub end: usize,
}

impl Span {
    pub open spec fn within(self, payload: Seq<u8>) -> bool {
        self.start <= self.end <= payload.len()
    }

    pub open spec fn text(self, payload: Seq<u8>) -> Seq<u8> {
        payload.subrange(self.start as int, self.end as int)
    }
}

pub open spec fn all_within(spans: Seq<Span>, payload: Seq<u8>) -> bool {
    forall|i: int|
        0 <= i < spans.len() ==> (#[trigger] spans[i]).start < spans[i].end && spans[i].within(
            payload,
        )
}

pub open spec fn texts(spans: Seq<Span>, payload: Seq<u8>) -> Seq<Seq<u8>> {
    Seq::new(spans.len(), |i: int| spans[i].text(payload))
}

/// The text of a field, where it is there.
pub open spec fn field_text(field: Option<Span>, payload: Seq<u8>) -> Option<Seq<u8>> {
    match field {
        Some(span) => Some(span.text(payload)),
        None => None,
    }
}

pub open spec fn field_within(field: Option<Span>, payload: Seq<u8>) -> bool {
    field matches Some(span) ==> span.within(payload)
}

pub open spec fn field_texts(fields: Seq<Option<Span>>, payload: Seq<u8>) -> Seq<Option<Seq<u8>>> {
    Seq::new(fields.len(), |i: int| field_text(fields[i], payload))
}

/// Whether the values of members are parts of a payload, behind a name.
pub open spec fn values_within(items: Seq<(String, Span)>, payload: Seq<u8>) -> bool {
    forall|i: int|
        0 <= i < items.len() ==> 0 < (#[trigger] items[i]).1.start && items[i].1.within(payload)
}

/// Members by name, each with the text of its value.
pub open spec fn named_texts(items: Seq<(String, Span)>, payload: Seq<u8>) -> Seq<
    (Seq<char>, Seq<u8>),
> {
    Seq::new(items.len(), |i: int| (items[i].0@, items[i].1.text(payload)))
}

/// The elements of an array: all of them, or those in front of a fault, and the
/// rest of the array from an object or an array on that is faulty itself.
pub(crate) struct Elements {
    pub spans: Vec<Span>,
    pub faulty: Option<Span>,
    pub fault: Option<serde_json::Error>,
}

/// The members of an object: all of them, or those in front of a fault. Where that
/// is in a value, its member is there too, with all that follows.
pub(crate) struct Members {
    pub items: Vec<(String, Span)>,
    pub fault: Option<serde_json::Error>,
}

/// What is wrong with a payload, and where.
pub(crate) struct Fault {
    pub at: usize,
    pub error: serde_json::Error,
}

/// The fields of a structure: all of them, or those that go before a fault.
pub(crate) struct Structure {
    pub fields: Vec<Option<Span>>,
    pub fault: Option<Fault>,
}

fn trim(text: &[u8]) -> (res: &[u8])
    ensures
        res@ == trimmed(text@),
        res@.len() <= text@.len(),
        res@ == text@.skip(text@.len() - res@.len()),
{
    let mut start: usize = 0;
    assert(text@.skip(0) == text@);
    while start < text.len() && (text[start] == 0x20 || text[start] == 0x0A || text[start] == 0x09
        || text[start] == 0x0D)
        invariant
            start <= text@.len(),
            trimmed(text@) == trimmed(text@.skip(start as int)),
        decreases text@.len() - start,
    {
        assert(text@.skip(start as int).skip(1) == text@.skip(start + 1));
        start = start + 1;
    }
    slice_subrange(text, start, text.len())
}

/// What follows `mark`, where that is the first byte after white space.
fn after_mark(text: &[u8], mark: u8) -> (res: Option<&[u8]>)
    ensures
        match res {
            Some(rest) => opens(text@, mark) && rest@ == behind(text@) && rest@.len() < text@.len()
                && rest@ == text@.skip(text@.len() - rest@.len()),
            None => !opens(text@, mark),
        },
{
    let ghost whole = text@;
    let text = trim(text);
    if text.len() > 0 && text[0] == mark {
        let rest = slice_subrange(text, 1, text.len());
        assert(rest@ == text@.skip(1));
        assert(rest@ == whole.skip(whole.len() - rest@.len()));
        Some(rest)
    } else {
        None
    }
}

fn closed_by(text: &[u8], mark: u8) -> (res: bool)
    ensures
        res == closes(text@, mark),
{
    match after_mark(text, mark) {
        Some(rest) => trim(rest).len() == 0,
        None => false,
    }
}

/// The first value of a text, and what follows it.
fn split_first(text: &[u8]) -> (res: Result<(&[u8], &[u8]), serde_json::Error>)
    ensures
        match res {
            Ok((value, rest)) => json_end(text@) == Some(value@.len()) && 0 < value@.len()
                <= text@.len() && value@ == text@.take(value@.len() as int) && rest@ == text@.skip(
                value@.len() as int,
            ),
            Err(_) => json_end(text@) is None,
        },
{
    match first_end(text)? {
        Some(end) => {
            let value = slice_subrange(text, 0, end);
            let rest = slice_subrange(text, end, text.len());
            assert(value@ == text@.take(end as int));
            assert(rest@ == text@.skip(end as int));
            Ok((value, rest))
        },
        None => Err(fault("EOF while parsing a value")),
    }
}

/// What is wrong with an array, or else `otherwise`.
fn list_fault(
    payload: &[u8],
    start: usize,
    end: usize,
    otherwise: serde_json::Error,
) -> serde_json::Error
    requires
        start <= end <= payload@.len(),
{
    match check_list(in_place(payload, start, end).as_slice()) {
        Err(error) => error,
        Ok(_) => otherwise,
    }
}

/// What is wrong with an object, or else `otherwise`.
fn object_fault(
    payload: &[u8],
    start: usize,
    end: usize,
    otherwise: serde_json::Error,
) -> serde_json::Error
    requires
        start <= end <= payload@.len(),
{
    match check_object(in_place(payload, start, end).as_slice()) {
        Err(error) => error,
        Ok(_) => otherwise,
    }
}

/// Splits an array into its elements.
pub(crate) fn read_elements(payload: &[u8], span: Span) -> (res: Elements)
    requires
        span.within(payload@),
    ensures
        all_within(res.spans@, payload@),
        field_within(res.faulty, payload@),
        match res.fault {
            None => elements(span.text(payload@)) == Some(texts(res.spans@, payload@)),
            Some(_) => elements(span.text(payload@)) is None,
        },
{
    let Span { start, end } = span;
    let document = slice_subrange(payload, start, end);
    let mut spans: Vec<Span> = Vec::new();
    assert(texts(spans@, payload@) == Seq::<Seq<u8>>::empty());
    let mut text = match after_mark(document, BRACKET_OPEN) {
        Some(rest) => rest,
        None => {
            let error = list_fault(payload, start, end, fault("expected an array"));
            return Elements { spans, faulty: None, fault: Some(error) };
        },
    };
    if closed_by(text, BRACKET_CLOSE) {
        return Elements { spans, faulty: None, fault: None };
    }
    assert(elements_from(text@) == preceded(Seq::empty(), elements_from(text@))) by {
        if let Some(more) = elements_from(text@) {
            assert(Seq::<Seq<u8>>::empty() + more == more);
        }
    }
    loop
        invariant
            span == (Span { start, end }),
            start <= end <= payload@.len(),
            text@.len() <= end - start,
            text@ == payload@.subrange(end - text@.len(), end as int),
            all_within(spans@, payload@),
            elements(span.text(payload@)) == preceded(
                texts(spans@, payload@),
                elements_from(text@),
            ),
        decreases text@.len(),
    {
        let ghost before = texts(spans@, payload@);
        let at: usize = end - text.len();
        let (element, rest) = match split_first(text) {
            Ok(parts) => parts,
            Err(error) => {
                let error = list_fault(payload, start, end, error);
                let nested = after_mark(text, BRACE_OPEN).is_some() || after_mark(
                    text,
                    BRACKET_OPEN,
                ).is_some();
                let faulty: Option<Span> = if nested {
                    Some(Span { start: at, end })
                } else {
                    None
                };
                return Elements { spans, faulty, fault: Some(error) };
            },
        };
        let item = Span { start: at, end: at + element.len() };
        assert(item.text(payload@) == element@);
        spans.push(item);
        assert(texts(spans@, payload@) == before.push(element@));
        match after_mark(rest, COMMA) {
            Some(next) => {
                proof {
                    if let Some(more) = elements_from(next@) {
                        assert(before + (seq![element@] + more) == texts(spans@, payload@) + more);
                    }
                    assert(next@ == payload@.subrange(end - next@.len(), end as int));
                }
                text = next;
            },
            None => {
                if closed_by(rest, BRACKET_CLOSE) {
                    assert(before + seq![element@] == texts(spans@, payload@));
                    return Elements { spans, faulty: None, fault: None };
                }
                let error = list_fault(payload, start, end, fault("expected `,` or `]`"));
                return Elements { spans, faulty: None, fault: Some(error) };
            },
        }
    }
}

/// The first member of an object's text, from behind the brace or a comma on: its
/// name, its value and what follows.
fn first_member(text: &[u8]) -> (res: Result<(String, &[u8], &[u8]), serde_json::Error>)
    ensures
        match res {
            Ok((name, value, rest)) => {
                &&& value@.len() + rest@.len() < text@.len()
                &&& rest@ == text@.skip(text@.len() - rest@.len())
                &&& value@ == text@.subrange(
                    text@.len() - rest@.len() - value@.len(),
                    text@.len() - rest@.len(),
                )
                &&& members_from(text@) == (if opens(rest@, COMMA) {
                    preceded(seq![(name@, value@)], members_from(behind(rest@)))
                } else if closes(rest@, BRACE_CLOSE) {
                    Some(seq![(name@, value@)])
                } else {
                    None
                })
            },
            Err(_) => members_from(text@) is None,
        },
{
    let (key, rest) = split_first(text)?;
    let name = match read_text(key)? {
        Some(name) => name,
        None => return Err(fault("key must be a string")),
    };
    let value = match after_mark(rest, COLON) {
        Some(value) => value,
        None => return Err(fault("expected `:`")),
    };
    let (value, rest) = split_first(value)?;
    assert(rest@ == text@.skip(text@.len() - rest@.len()));
    assert(value@ == text@.subrange(
        text@.len() - rest@.len() - value@.len(),
        text@.len() - rest@.len(),
    ));
    Ok((name, value, rest))
}

/// The name and the text on from the value of a member whose value is faulty, in a
/// text from behind the brace or a comma on.
fn faulty_member(text: &[u8]) -> (res: Option<(String, &[u8])>)
    ensures
        res matches Some((_, value)) ==> value@.len() < text@.len() && !json_starts(value@),
{
    let (key, rest) = split_first(text).ok()?;
    let name = read_text(key).ok()??;
    let value = after_mark(rest, COLON)?;
    match check_first(value) {
        Ok(_) => None,
        Err(_) => Some((name, value)),
    }
}

/// Splits an object into its members.
fn read_members(payload: &[u8], span: Span) -> (res: Members)
    requires
        span.within(payload@),
    ensures
        values_within(res.items@, payload@),
        match res.fault {
            None => members(span.text(payload@)) == Some(named_texts(res.items@, payload@)),
            Some(_) => members(span.text(payload@)) is None,
        },
{
    let Span { start, end } = span;
    let document = slice_subrange(payload, start, end);
    let mut items: Vec<(String, Span)> = Vec::new();
    assert(named_texts(items@, payload@) == Seq::<(Seq<char>, Seq<u8>)>::empty());
    let mut text = match after_mark(document, BRACE_OPEN) {
        Some(rest) => rest,
        None => {
            let error = object_fault(payload, start, end, fault("expected an object"));
            return Members { items, fault: Some(error) };
        },
    };
    if closed_by(text, BRACE_CLOSE) {
        return Members { items, fault: None };
    }
    assert(members_from(text@) == preceded(Seq::empty(), members_from(text@))) by {
        if let Some(more) = members_from(text@) {
            assert(Seq::<(Seq<char>, Seq<u8>)>::empty() + more == more);
        }
    }
    loop
        invariant
            span == (Span { start, end }),
            start <= end <= payload@.len(),
            text@.len() <= end - start,
            text@ == payload@.subrange(end - text@.len(), end as int),
            values_within(items@, payload@),
            members(span.text(payload@)) == preceded(
                named_texts(items@, payload@),
                members_from(text@),
            ),
        decreases text@.len(),
    {
        let ghost before = named_texts(items@, payload@);
        let (name, value, rest) = match first_member(text) {
            Ok(parts) => parts,
            Err(error) => {
                let error = object_fault(payload, start, end, error);
                if let Some((name, value)) = faulty_member(text) {
                    items.push((name, Span { start: end - value.len(), end }));
                }
                return Members { items, fault: Some(error) };
            },
        };
        let at: usize = end - rest.len() - value.len();
        let ghost item = (name@, value@);
        let part = Span { start: at, end: at + value.len() };
        assert(part.text(payload@) == value@);
        items.push((name, part));
        assert(named_texts(items@, payload@) == before.push(item));
        match after_mark(rest, COMMA) {
            Some(next) => {
                proof {
                    if let Some(more) = members_from(next@) {
                        assert(before + (seq![item] + more) == named_texts(items@, payload@) + more);
                    }
                    assert(next@ == payload@.subrange(end - next@.len(), end as int));
                }
                text = next;
            },
            None => {
                if closed_by(rest, BRACE_CLOSE) {
                    assert(before + seq![item] == named_texts(items@, payload@));
                    return Members { items, fault: None };
                }
                let error = object_fault(payload, start, end, fault("expected `,` or `}`"));
                return Members { items, fault: Some(error) };
            },
        }
    }
}

/// The value of the member called `name`, where there is one; where there are
/// more, the first two.
fn find_member(items: &Vec<(String, Span)>, name: &str, Ghost(payload): Ghost<Seq<u8>>) -> (res:
    Result<Option<Span>, (Span, Span)>)
    requires
        values_within(items@, payload),
    ensures
        match res {
            Ok(found) => called(named_texts(items@, payload), name@).len() <= 1 && field_text(
                found,
                payload,
            ) == member(named_texts(items@, payload), name@) && field_within(found, payload),
            Err((first, second)) => called(named_texts(items@, payload), name@).len() > 1
                && first.within(payload) && second.within(payload) && 0 < second.start,
        },
{
    let ghost all = named_texts(items@, payload);
    let ghost is_called = |member: (Seq<char>, Seq<u8>)| member.0 == name@;
    let mut found: Option<Span> = None;
    let mut i: usize = 0;
    assert(all.take(0).filter(is_called).len() == 0) by {
        reveal(Seq::filter);
    }
    while i < items.len()
        invariant
            i <= items.len(),
            values_within(items@, payload),
            all == named_texts(items@, payload),
            is_called == (|member: (Seq<char>, Seq<u8>)| member.0 == name@),
            match found {
                None => all.take(i as int).filter(is_called).len() == 0,
                Some(span) => all.take(i as int).filter(is_called) == seq![
                    (name@, span.text(payload)),
                ] && span.within(payload),
            },
        decreases items.len() - i,
    {
        proof {
            assert(all.take(i + 1).drop_last() == all.take(i as int));
            assert(all.take(i + 1).last() == (items[i as int].0@, items[i as int].1.text(payload)));
            reveal(Seq::filter);
        }
        if text::same(items[i].0.as_str(), name) {
            if let Some(first) = found {
                proof {
                    assert(all.take(i + 1).filter(is_called).len() == 2);
                    lemma_called_in_front(all, name@, i + 1);
                }
                return Err((first, items[i].1));
            }
            found = Some(items[i].1);
        }
        i = i + 1;
    }
    assert(all.take(items.len() as int) == all);
    Ok(found)
}

proof fn lemma_called_in_front(members: Seq<(Seq<char>, Seq<u8>)>, name: Seq<char>, n: int)
    requires
        0 <= n <= members.len(),
    ensures
        called(members.take(n), name).len() <= called(members, name).len(),
    decreases members.len(),
{
    reveal(Seq::filter);
    if n < members.len() {
        lemma_called_in_front(members.drop_last(), name, n);
        assert(members.drop_last().take(n) == members.take(n));
    } else {
        assert(members.take(n) == members);
    }
}

/// A fault that is told where there is no other.
fn behind_all(payload: &[u8], error: Option<serde_json::Error>) -> (res: Option<Fault>)
    ensures
        res is Some <==> error is Some,
        res matches Some(fault) ==> Some(fault.error) == error && fault.at == payload@.len(),
{
    match error {
        Some(error) => Some(Fault { at: payload.len(), error }),
        None => None,
    }
}

/// What a field holds; where it cannot be read, that is the first fault unless
/// there is one before it.
pub(crate) fn settle<T>(
    read: Result<Option<T>, serde_json::Error>,
    field: Option<Span>,
    first: &mut Option<Fault>,
) -> (res: Option<T>)
    ensures
        match read {
            Ok(value) => res == value && *final(first) == *old(first),
            Err(error) => {
                let at = match field {
                    Some(span) => span.start,
                    None => 0,
                };
                &&& res is None
                &&& *final(first) == (if *old(first) matches Some(fault) && fault.at <= at {
                    *old(first)
                } else {
                    Some(Fault { at, error })
                })
            },
        },
{
    match read {
        Ok(value) => value,
        Err(error) => {
            let at: usize = match field {
                Some(span) => span.start,
                None => 0,
            };
            let before: bool = match &*first {
                Some(fault) => fault.at <= at,
                None => false,
            };
            if !before {
                *first = Some(Fault { at, error });
            }
            None
        },
    }
}

/// Splits an object into the fields called `names`.
fn read_object(payload: &[u8], span: Span, names: &Vec<&str>) -> (res: Structure)
    requires
        span.within(payload@),
        opens(span.text(payload@), BRACE_OPEN),
    ensures
        res.fields.len() == names.len(),
        forall|i: int|
            0 <= i < res.fields.len() ==> field_within(#[trigger] res.fields[i], payload@),
        match res.fault {
            None => structure(span.text(payload@), names.deep_view()) == Some(
                field_texts(res.fields@, payload@),
            ),
            Some(_) => structure(span.text(payload@), names.deep_view()) is None,
        },
{
    let ghost document = span.text(payload@);
    let ghost wanted = names.deep_view();
    let found = read_members(payload, span);
    let items = found.items;
    let ghost all = named_texts(items@, payload@);
    assert(elements(document) is None);
    let mut fields: Vec<Option<Span>> = Vec::new();
    // The first field that is given once more, and where.
    let mut repeat: Option<(usize, usize)> = None;
    let mut i: usize = 0;
    while i < names.len()
        invariant
            i <= names.len(),
            wanted == names.deep_view(),
            all == named_texts(items@, payload@),
            fields.len() == i,
            values_within(items@, payload@),
            forall|j: int| 0 <= j < i ==> field_within(#[trigger] fields[j], payload@),
            match repeat {
                None => forall|j: int|
                    0 <= j < i ==> called(all, #[trigger] wanted[j]).len() <= 1 && field_text(
                        fields[j],
                        payload@,
                    ) == member(all, wanted[j]),
                Some((name, at)) => name < i && at < payload@.len() && called(
                    all,
                    wanted[name as int],
                ).len() > 1,
            },
        decreases names.len() - i,
    {
        assert(wanted[i as int] == names@[i as int]@);
        match find_member(&items, names[i], Ghost(payload@)) {
            Ok(value) => {
                fields.push(value);
            },
            Err((first, second)) => {
                fields.push(Some(first));
                let earlier: bool = match repeat {
                    Some((_, at)) => at < second.start,
                    None => false,
                };
                if !earlier {
                    repeat = Some((i, second.start - 1));
                }
            },
        }
        i = i + 1;
    }
    match repeat {
        Some((name, at)) => {
            let error = fault(
                tell_at(repeated_message(names[name]), payload, at, false).as_str(),
            );
            Structure { fields, fault: Some(Fault { at, error }) }
        },
        None => {
            assert(field_texts(fields@, payload@) == Seq::new(
                wanted.len(),
                |i: int| member(all, wanted[i]),
            ));
            Structure { fields, fault: behind_all(payload, found.fault) }
        },
    }
}

/// Where a part of a payload starts behind white space.
fn first_byte(payload: &[u8], span: Span) -> (res: usize)
    requires
        span.start < span.end,
        span.within(payload@),
    ensures
        span.start <= res < span.end,
        forall|i: int| span.start <= i < res ==> is_space(#[trigger] payload@[i]),
        res == span.end - 1 || !is_space(payload@[res as int]),
{
    let mut at: usize = span.start;
    while at < span.end - 1 && (payload[at] == 0x20 || payload[at] == 0x0A || payload[at] == 0x09
        || payload[at] == 0x0D)
        invariant
            span.start <= at < span.end,
            span.within(payload@),
            forall|i: int| span.start <= i < at ==> is_space(#[trigger] payload@[i]),
        decreases span.end - at,
    {
        at = at + 1;
    }
    at
}

/// Splits an array into the fields called `names`, one element for each.
fn read_tuple(payload: &[u8], span: Span, what: &str, names: &Vec<&str>) -> (res: Structure)
    requires
        span.within(payload@),
        opens(span.text(payload@), BRACKET_OPEN),
    ensures
        res.fields.len() == names.len(),
        forall|i: int|
            0 <= i < res.fields.len() ==> field_within(#[trigger] res.fields[i], payload@),
        match res.fault {
            None => structure(span.text(payload@), names.deep_view()) == Some(
                field_texts(res.fields@, payload@),
            ),
            Some(_) => structure(span.text(payload@), names.deep_view()) is None,
        },
{
    let ghost document = span.text(payload@);
    let found = read_elements(payload, span);
    assert(members(document) is None);
    let spans = found.spans;
    let mut fields: Vec<Option<Span>> = Vec::new();
    let mut i: usize = 0;
    while i < names.len()
        invariant
            i <= names.len(),
            fields.len() == i,
            all_within(spans@, payload@),
            forall|j: int| 0 <= j < i ==> field_within(#[trigger] fields[j], payload@),
            spans.len() == names.len() ==> forall|j: int|
                0 <= j < i ==> #[trigger] fields[j] == Some(spans[j]),
        decreases names.len() - i,
    {
        fields.push(
            if i < spans.len() {
                Some(spans[i])
            } else {
                None
            },
        );
        i = i + 1;
    }
    if found.fault.is_none() && spans.len() < names.len() {
        let message = length_message(spans.len(), what, names.len());
        let error = fault(tell_at(message, payload, span.end - 1, true).as_str());
        return Structure { fields, fault: behind_all(payload, Some(error)) };
    }
    if found.fault.is_none() && spans.len() > names.len() {
        let at = first_byte(payload, spans[names.len()]);
        let message = "trailing characters".to_owned();
        let error = fault(tell_at(message, payload, at, true).as_str());
        return Structure { fields, fault: behind_all(payload, Some(error)) };
    }
    proof {
        if found.fault is None {
            let elements = texts(spans@, payload@);
            assert(field_texts(fields@, payload@) == Seq::new(
                names.deep_view().len(),
                |i: int| Some(elements[i]),
            ));
        }
    }
    Structure { fields, fault: behind_all(payload, found.fault) }
}

/// The error of a value that should be the structure `what`, where `error` is that
/// of one that should be a map.
fn expecting(error: serde_json::Error, what: &str) -> serde_json::Error {
    match expecting_message(error.to_string().as_str(), what) {
        Some(message) => fault(message.as_str()),
        None => error,
    }
}

/// Splits a structure into the fields called `names`; `what` is its own name.
pub(crate) fn read_structure(payload: &[u8], span: Span, what: &str, names: &Vec<&str>) -> (res:
    Structure)
    requires
        span.within(payload@),
    ensures
        res.fields.len() == names.len(),
        forall|i: int|
            0 <= i < res.fields.len() ==> field_within(#[trigger] res.fields[i], payload@),
        match res.fault {
            None => structure(span.text(payload@), names.deep_view()) == Some(
                field_texts(res.fields@, payload@),
            ),
            Some(_) => structure(span.text(payload@), names.deep_view()) is None,
        },
{
    let document = slice_subrange(payload, span.start, span.end);
    if after_mark(document, BRACKET_OPEN).is_some() {
        return read_tuple(payload, span, what, names);
    }
    if after_mark(document, BRACE_OPEN).is_some() {
        return read_object(payload, span, names);
    }
    let mut fields: Vec<Option<Span>> = Vec::new();
    while fields.len() < names.len()
        invariant
            fields.len() <= names.len(),
            forall|j: int| 0 <= j < fields.len() ==> #[trigger] fields[j] is None,
        decreases names.len() - fields.len(),
    {
        fields.push(None);
    }
    let error = object_fault(payload, span.start, span.end, fault("expected an object"));
    let error = expecting(error, what);
    Structure { fields, fault: behind_all(payload, Some(error)) }
}

/// Reads a field that holds a string.
pub(crate) fn read_text_field(payload: &[u8], field: Option<Span>) -> (res: Result<
    Option<String>,
    serde_json::Error,
>)
    requires
        field_within(field, payload@),
    ensures
        match res {
            Ok(value) => text_field(field_text(field, payload@)) == Some(value.deep_view()),
            Err(_) => text_field(field_text(field, payload@)) is None,
        },
{
    match field {
        Some(Span { start, end }) => match read_text(slice_subrange(payload, start, end)) {
            Ok(value) => Ok(value),
            Err(error) => match read_text(in_place(payload, start, end).as_slice()) {
                Ok(_) => Err(error),
                Err(placed) => Err(placed),
            },
        },
        None => Ok(None),
    }
}

/// Reads a field that holds a number, as its literal.
pub(crate) fn read_number_field(payload: &[u8], field: Option<Span>) -> (res: Result<
    Option<String>,
    serde_json::Error,
>)
    requires
        field_within(field, payload@),
    ensures
        match res {
            Ok(value) => number_field(field_text(field, payload@)) == Some(value.deep_view()),
            Err(_) => number_field(field_text(field, payload@)) is None,
        },
        number_kept(field_text(field, payload@)),
{
    match field {
        Some(Span { start, end }) => match read_number(slice_subrange(payload, start, end)) {
            Ok(value) => Ok(value),
            Err(error) => match read_number(in_place(payload, start, end).as_slice()) {
                Ok(_) => Err(error),
                Err(placed) => Err(placed),
            },
        },
        None => Ok(None),
    }
}

/// Reads a field that holds a `u32`.
pub(crate) fn read_u32_field(payload: &[u8], field: Option<Span>) -> (res: Result<
    Option<u32>,
    serde_json::Error,
>)
    requires
        field_within(field, payload@),
    ensures
        match res {
            Ok(value) => u32_field(field_text(field, payload@)) == Some(value),
            Err(_) => u32_field(field_text(field, payload@)) is None,
        },
{
    match field {
        Some(Span { start, end }) => match read_u32(slice_subrange(payload, start, end)) {
            Ok(value) => Ok(value),
            Err(error) => match read_u32(in_place(payload, start, end).as_slice()) {
                Ok(_) => Err(error),
                Err(placed) => Err(placed),
            },
        },
        None => Ok(None),
    }
}

/// Reads a field that holds a `u64`.
pub(crate) fn read_u64_field(payload: &[u8], field: Option<Span>) -> (res: Result<
    Option<u64>,
    serde_json::Error,
>)
    requires
        field_within(field, payload@),
    ensures
        match res {
            Ok(value) => u64_field(field_text(field, payload@)) == Some(value),
            Err(_) => u64_field(field_text(field, payload@)) is None,
        },
{
    match field {
        Some(Span { start, end }) => match read_u64(slice_subrange(payload, start, end)) {
            Ok(value) => Ok(value),
            Err(error) => match read_u64(in_place(payload, start, end).as_slice()) {
                Ok(_) => Err(error),
                Err(placed) => Err(placed),
            },
        },
        None => Ok(None),
    }
}

/// Reads a field that holds an object of `u32` members.
pub(crate) fn read_u32_members_field(payload: &[u8], field: Option<Span>) -> (res: Result<
    Option<Vec<(String, u32)>>,
    serde_json::Error,
>)
    requires
        field_within(field, payload@),
    ensures
        match res {
            Ok(value) => u32_members_field(field_text(field, payload@)) == Some(value.deep_view()),
            Err(_) => u32_members_field(field_text(field, payload@)) is None,
        },
{
    match field {
        Some(Span { start, end }) => match read_u32_members(slice_subrange(payload, start, end)) {
            Ok(value) => Ok(value),
            Err(error) => match read_u32_members(in_place(payload, start, end).as_slice()) {
                Ok(_) => Err(error),
                Err(placed) => Err(placed),
            },
        },
        None => Ok(None),
    }
}

} // verus!
