//! Places in a payload, and what is told with them.
use vstd::prelude::*;

use crate::decimal::{decimal_digits, NumberFault};
use crate::faults::{
    column_of, expecting_text, length_text, line_of, placed, repeated_text, told_at,
};

verus! {

/// A part of a payload that is put in its place keeps its bytes, stands behind as many
/// lines and bytes as in the payload, and has nothing but blanks and line ends in
/// front.
pub proof fn law_parts_stand_in_their_place(payload: Seq<u8>, start: int, end: int, i: int)
    requires
        0 <= start <= end <= payload.len(),
    ensures
        placed(payload, start, end).len() == end,
        start <= i < end ==> placed(payload, start, end)[i] == payload[i],
        0 <= i < start && payload[i] == 10 ==> placed(payload, start, end)[i] == 10,
        0 <= i < start && payload[i] != 10 ==> placed(payload, start, end)[i] == 32,
        0 <= i <= end ==> line_of(placed(payload, start, end), i) == line_of(payload, i),
        0 <= i <= end ==> column_of(placed(payload, start, end), i) == column_of(payload, i),
    decreases i,
{
    if 0 < i <= end {
        law_parts_stand_in_their_place(payload, start, end, i - 1);
    }
}

/// The number of line ends in front of a place.
pub open spec fn line_ends(text: Seq<u8>, at: int) -> nat {
    text.take(at).filter(|b: u8| b == 10).len()
}

/// Lines are counted from one, and each line end starts another.
pub proof fn law_lines_are_counted(text: Seq<u8>, at: int)
    requires
        0 <= at <= text.len(),
    ensures
        line_of(text, at) == 1 + line_ends(text, at),
    decreases at,
{
    reveal(Seq::filter);
    if at > 0 {
        law_lines_are_counted(text, at - 1);
        assert(text.take(at).drop_last() == text.take(at - 1));
        assert(text.take(at).last() == text[at - 1]);
    } else {
        assert(text.take(0).len() == 0);
    }
}

/// A column is the distance from the start of the line.
pub proof fn law_columns_count_from_the_line(text: Seq<u8>, start: int, at: int)
    requires
        0 <= start <= at <= text.len(),
        start == 0 || text[start - 1] == 10,
        forall|i: int| start <= i < at ==> text[i] != 10,
    ensures
        column_of(text, at) == at - start,
    decreases at - start,
{
    if at > start {
        law_columns_count_from_the_line(text, start, at - 1);
    }
}

/// A message with a place is the message, the line and the column.
pub proof fn law_messages_name_their_place(
    message: Seq<char>,
    text: Seq<u8>,
    at: int,
    ahead: nat,
    name: Seq<char>,
    found: nat,
    wanted: nat,
)
    ensures
        told_at(message, text, at, ahead) == message + (" at line "@ + (decimal_digits(
            line_of(text, at),
        ) + (" column "@ + decimal_digits(column_of(text, at) + ahead)))),
        repeated_text(name) == "duplicate field `"@ + (name + "`"@),
        length_text(found, name, wanted) == "invalid length "@ + (decimal_digits(found) + (
        ", expected struct "@ + (name + (" with "@ + (decimal_digits(wanted) + " elements"@))))),
{
    assert(told_at(message, text, at, ahead) == message + (" at line "@ + (decimal_digits(
        line_of(text, at),
    ) + (" column "@ + decimal_digits(column_of(text, at) + ahead)))));
    assert(repeated_text(name) == "duplicate field `"@ + (name + "`"@));
    assert(length_text(found, name, wanted) == "invalid length "@ + (decimal_digits(found) + (
    ", expected struct "@ + (name + (" with "@ + (decimal_digits(wanted) + " elements"@))))));
}

/// What is told of a map is told of a structure with that one word changed.
pub proof fn law_structures_are_named(front: Seq<char>, back: Seq<char>, what: Seq<char>)
    ensures
        expecting_text(front + "expected a map"@ + back, front.len() as int, what) == front
            + "expected struct "@ + what + back,
{
    let told = front + "expected a map"@ + back;
    assert(told.take(front.len() as int) == front);
    assert(told.skip(front.len() as int + "expected a map"@.len()) == back);
}

/// The two causes are told apart.
pub proof fn law_causes_are_told_apart()
    ensures
        NumberFault::InvalidDigit.text() != NumberFault::TooLarge.text(),
{
    reveal_strlit("invalid digit found in string");
    reveal_strlit("number too large to fit in target type");
    assert("invalid digit found in string"@[0] != "number too large to fit in target type"@[0]);
}

} // verus!
