//! What is told of a payload that is refused, and the place that goes with it.
use vstd::prelude::*;

use crate::decimal::{decimal_digits, decimal_text};
use crate::text;

verus! {

/// The text of a payload from `start` to `end`, with blanks for what stands in
/// front of it, line by line.
pub open spec fn placed(payload: Seq<u8>, start: int, end: int) -> Seq<u8> {
    Seq::new(
        end as nat,
        |i: int|
            if i < start && payload[i] != 0x0A {
                0x20
            } else {
                payload[i]
            },
    )
}

/// A part of a payload as a document of its own, in which everything has the line
/// and the column that it has in the payload.
pub fn in_place(payload: &[u8], start: usize, end: usize) -> (res: Vec<u8>)
    requires
        start <= end <= payload@.len(),
    ensures
        res@ == placed(payload@, start as int, end as int),
{
    let mut bytes: Vec<u8> = Vec::new();
    let mut i: usize = 0;
    while i < end
        invariant
            i <= end <= payload@.len(),
            bytes@ == placed(payload@, start as int, end as int).take(i as int),
        decreases end - i,
    {
        bytes.push(
            if i < start && payload[i] != 0x0A {
                0x20
            } else {
                payload[i]
            },
        );
        i = i + 1;
        assert(bytes@ == placed(payload@, start as int, end as int).take(i as int));
    }
    bytes
}

/// The line of a place in a text, counted from 1.
pub open spec fn line_of(text: Seq<u8>, at: int) -> nat
    decreases at,
{
    if at <= 0 {
        1
    } else if text[at - 1] == 0x0A {
        line_of(text, at - 1) + 1
    } else {
        line_of(text, at - 1)
    }
}

/// How many bytes are before a place in its line.
pub open spec fn column_of(text: Seq<u8>, at: int) -> nat
    decreases at,
{
    if at <= 0 || text[at - 1] == 0x0A {
        0
    } else {
        column_of(text, at - 1) + 1
    }
}

/// A message with a place: `ahead` bytes behind the one at `at`, in its line.
pub open spec fn told_at(message: Seq<char>, text: Seq<u8>, at: int, ahead: nat) -> Seq<char> {
    message + " at line "@ + decimal_digits(line_of(text, at)) + " column "@ + decimal_digits(
        column_of(text, at) + ahead,
    )
}

pub fn tell_at(message: String, payload: &[u8], at: usize, ahead: bool) -> (res: String)
    requires
        at < payload@.len(),
    ensures
        res@ == told_at(
            message@,
            payload@,
            at as int,
            if ahead {
                1
            } else {
                0
            },
        ),
{
    let mut line: u64 = 1;
    let mut column: u64 = 0;
    let mut i: usize = 0;
    while i < at
        invariant
            i <= at < payload@.len(),
            1 <= line <= 1 + i,
            column <= i,
            line == line_of(payload@, i as int),
            column == column_of(payload@, i as int),
        decreases at - i,
    {
        if payload[i] == 0x0A {
            line = line + 1;
            column = 0;
        } else {
            column = column + 1;
        }
        i = i + 1;
    }
    assert(at < payload.len());
    if ahead {
        column = column + 1;
    }
    let mut told: String = message;
    told.append(" at line ");
    told.append(decimal_text(line).as_str());
    told.append(" column ");
    told.append(decimal_text(column).as_str());
    told
}

/// What to tell of a field that is given once more.
pub open spec fn repeated_text(name: Seq<char>) -> Seq<char> {
    "duplicate field `"@ + name + "`"@
}

pub fn repeated_message(name: &str) -> (res: String)
    ensures
        res@ == repeated_text(name@),
{
    let mut message: String = "duplicate field `".to_owned();
    message.append(name);
    message.append("`");
    message
}

/// What to tell of an array with too few elements for the fields of a structure.
pub open spec fn length_text(found: nat, what: Seq<char>, wanted: nat) -> Seq<char> {
    "invalid length "@ + decimal_digits(found) + ", expected struct "@ + what + " with "@
        + decimal_digits(wanted) + " elements"@
}

pub fn length_message(found: usize, what: &str, wanted: usize) -> (res: String)
    ensures
        res@ == length_text(found as nat, what@, wanted as nat),
{
    let mut message: String = "invalid length ".to_owned();
    message.append(decimal_text(found as u64).as_str());
    message.append(", expected struct ");
    message.append(what);
    message.append(" with ");
    message.append(decimal_text(wanted as u64).as_str());
    message.append(" elements");
    message
}

/// Whether `part` stands in `s` at `at`.
pub open spec fn stands_at(s: Seq<char>, part: Seq<char>, at: int) -> bool {
    at + part.len() <= s.len() && s.subrange(at, at + part.len()) == part
}

/// What to tell of a value that should be the structure `what`, by what is told of
/// one that should be a map.
pub open spec fn expecting_text(told: Seq<char>, at: int, what: Seq<char>) -> Seq<char> {
    told.take(at) + "expected struct "@ + what + told.skip(at + "expected a map"@.len())
}

pub fn expecting_message(told: &str, what: &str) -> (res: Option<String>)
    ensures
        match res {
            Some(message) => exists|at: int|
                0 <= at && #[trigger] stands_at(told@, "expected a map at line "@, at) && (forall|
                    later: int,
                |
                    at < later ==> !#[trigger] stands_at(
                        told@,
                        "expected a map at line "@,
                        later,
                    )) && message@ == expecting_text(told@, at, what@),
            None => forall|at: int|
                0 <= at ==> !#[trigger] stands_at(told@, "expected a map at line "@, at),
        },
{
    proof {
        reveal_strlit("expected a map");
        reveal_strlit("expected a map at line ");
    }
    let mark: &str = "expected a map at line ";
    let length: usize = told.unicode_len();
    let width: usize = mark.unicode_len();
    if length < width {
        return None;
    }
    let mut at: usize = length - width + 1;
    while at > 0
        invariant
            length == told@.len(),
            width == mark@.len() == 23,
            "expected a map"@.len() == 14,
            mark@ == "expected a map at line "@,
            at <= length - width + 1,
            forall|later: int|
                at <= later ==> !#[trigger] stands_at(told@, "expected a map at line "@, later),
        decreases at,
    {
        at = at - 1;
        if text::same(told.substring_char(at, at + width), mark) {
            assert(stands_at(told@, "expected a map at line "@, at as int));
            let mut message: String = told.substring_char(0, at).to_owned();
            message.append("expected struct ");
            message.append(what);
            message.append(told.substring_char(at + 14, length));
            assert(message@ == expecting_text(told@, at as int, what@));
            return Some(message);
        }
    }
    None
}

} // verus!
