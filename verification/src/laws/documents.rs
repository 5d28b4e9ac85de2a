//! What documents hold.
use vstd::prelude::*;

use crate::decimal::{decimal_value, is_digit};
use crate::domain::{info_fields, raw_info, RawInfoView};
use crate::json::{
    behind, called, characters, closes, elements, elements_from, is_space, json_end, json_number,
    json_text, json_u32, json_u32_members, json_u64, json_unsigned, member, members, members_from,
    opens, structure, trimmed, trimmed_end,
};
use crate::laws::scaling::{lemma_written_parts, written};
use crate::laws::texts::all_digits;
use crate::senml::{
    numbers_kept, raw_record, raw_records, record_fields, record_numbers_kept, RawRecordView,
};

verus! {

/// Nothing but blanks, line ends and tabs.
pub open spec fn all_space(text: Seq<u8>) -> bool {
    forall|i: int|
        0 <= i < text.len() ==> #[trigger] text[i] == 32 || text[i] == 10 || text[i] == 9 || text[i]
            == 13
}

proof fn lemma_trimmed(space: Seq<u8>, rest: Seq<u8>)
    requires
        all_space(space),
        rest.len() > 0 ==> !is_space(rest[0]),
    ensures
        trimmed(space + rest) == rest,
    decreases space.len(),
{
    let text = space + rest;
    if space.len() == 0 {
        assert(text == rest);
    } else {
        assert(text[0] == space[0]);
        assert(text.skip(1) == space.skip(1) + rest);
        lemma_trimmed(space.skip(1), rest);
    }
}

/// What trimming takes is white space.
proof fn lemma_untrimmed(text: Seq<u8>)
    ensures
        trimmed(text).len() <= text.len(),
        all_space(text.take(text.len() - trimmed(text).len())),
        text == text.take(text.len() - trimmed(text).len()) + trimmed(text),
    decreases text.len(),
{
    if text.len() > 0 && is_space(text[0]) {
        let tail = text.skip(1);
        lemma_untrimmed(tail);
        let n = text.len() - trimmed(text).len();
        let space = text.take(n);
        assert forall|i: int| 0 <= i < space.len() implies #[trigger] space[i] == 32 || space[i]
            == 10 || space[i] == 9 || space[i] == 13 by {
            if i > 0 {
                assert(space[i] == tail.take(n - 1)[i - 1]);
            }
        }
        assert(text == space + trimmed(text)) by {
            assert(tail == tail.take(n - 1) + trimmed(tail));
            assert(text == seq![text[0]] + tail);
            assert(space == seq![text[0]] + tail.take(n - 1));
        }
    } else {
        assert(text == text.take(0) + text);
    }
}

/// Elements with the white space behind each, separated by commas and closed by a
/// bracket, with white space behind that.
pub open spec fn joined(items: Seq<(Seq<u8>, Seq<u8>)>, tail: Seq<u8>) -> Seq<u8>
    decreases items.len(),
{
    if items.len() == 0 {
        seq![0x5Du8] + tail
    } else if items.len() == 1 {
        items[0].0 + (items[0].1 + (seq![0x5Du8] + tail))
    } else {
        items[0].0 + (items[0].1 + (seq![0x2Cu8] + joined(items.skip(1), tail)))
    }
}

/// Whether each element is read as a value of its whole length where it stands.
pub open spec fn are_values(items: Seq<(Seq<u8>, Seq<u8>)>, tail: Seq<u8>) -> bool {
    forall|i: int|
        0 <= i < items.len() ==> (#[trigger] items[i]).0.len() > 0 && all_space(items[i].1)
            && json_end(joined(items.skip(i), tail)) == Some(items[i].0.len())
}

pub open spec fn firsts(items: Seq<(Seq<u8>, Seq<u8>)>) -> Seq<Seq<u8>> {
    Seq::new(items.len(), |i: int| items[i].0)
}

proof fn lemma_joined_reads(items: Seq<(Seq<u8>, Seq<u8>)>, tail: Seq<u8>)
    requires
        items.len() > 0,
        are_values(items, tail),
        all_space(tail),
    ensures
        elements_from(joined(items, tail)) == Some(firsts(items)),
    decreases items.len(),
{
    let text = joined(items, tail);
    let (element, gap) = items[0];
    assert(items.skip(0) == items);
    assert(json_end(text) == Some(element.len()));
    if items.len() == 1 {
        let rest = gap + (seq![0x5Du8] + tail);
        assert(text == element + rest);
        assert(text.take(element.len() as int) == element);
        assert(text.skip(element.len() as int) == rest);
        lemma_trimmed(gap, seq![0x5Du8] + tail);
        assert((seq![0x5Du8] + tail).skip(1) == tail);
        lemma_trimmed(tail, Seq::empty());
        assert(tail + Seq::<u8>::empty() == tail);
        assert(firsts(items) == seq![element]);
    } else {
        let others = items.skip(1);
        let next = joined(others, tail);
        let rest = gap + (seq![0x2Cu8] + next);
        assert(text == element + rest);
        assert(text.take(element.len() as int) == element);
        assert(text.skip(element.len() as int) == rest);
        lemma_trimmed(gap, seq![0x2Cu8] + next);
        assert((seq![0x2Cu8] + next).skip(1) == next);
        assert forall|i: int| 0 <= i < others.len() implies (#[trigger] others[i]).0.len() > 0
            && all_space(others[i].1) && json_end(joined(others.skip(i), tail)) == Some(
            others[i].0.len(),
        ) by {
            assert(others[i] == items[i + 1]);
            assert(others.skip(i) == items.skip(i + 1));
        }
        lemma_joined_reads(others, tail);
        assert(firsts(items) == seq![element] + firsts(others));
    }
}

/// An array is split into its elements, all of them and in order.
pub proof fn law_arrays_are_split(
    lead: Seq<u8>,
    items: Seq<(Seq<u8>, Seq<u8>)>,
    tail: Seq<u8>,
)
    requires
        all_space(lead),
        all_space(tail),
        items.len() > 0,
        are_values(items, tail),
        !opens(items[0].0, 0x5D),
        trimmed(items[0].0).len() > 0,
    ensures
        elements(lead + (seq![0x5Bu8] + joined(items, tail))) == Some(firsts(items)),
{
    let body = joined(items, tail);
    let document = lead + (seq![0x5Bu8] + body);
    lemma_trimmed(lead, seq![0x5Bu8] + body);
    assert((seq![0x5Bu8] + body).skip(1) == body);
    lemma_joined_reads(items, tail);
    let first = items[0].0;
    lemma_untrimmed(first);
    let space = first.take(first.len() - trimmed(first).len());
    let core = trimmed(first);
    let rest = body.skip(first.len() as int);
    assert(body == first + rest);
    assert(first == space + core);
    assert(body == space + (core + rest));
    lemma_core_starts(first);
    lemma_trimmed(space, core + rest);
    assert(trimmed(body) == core + rest);
    assert((core + rest)[0] == core[0]);
}

proof fn lemma_core_starts(text: Seq<u8>)
    ensures
        trimmed(text).len() > 0 ==> !is_space(trimmed(text)[0]),
    decreases text.len(),
{
    if text.len() > 0 && is_space(text[0]) {
        lemma_core_starts(text.skip(1));
    }
}

/// An array may be empty.
pub proof fn law_empty_arrays_have_no_elements(lead: Seq<u8>, gap: Seq<u8>, tail: Seq<u8>)
    requires
        all_space(lead),
        all_space(gap),
        all_space(tail),
    ensures
        elements(lead + (seq![0x5Bu8] + (gap + (seq![0x5Du8] + tail)))) == Some(
            Seq::<Seq<u8>>::empty(),
        ),
{
    let body = gap + (seq![0x5Du8] + tail);
    lemma_trimmed(lead, seq![0x5Bu8] + body);
    assert((seq![0x5Bu8] + body).skip(1) == body);
    lemma_trimmed(gap, seq![0x5Du8] + tail);
    assert((seq![0x5Du8] + tail).skip(1) == tail);
    lemma_trimmed(tail, Seq::empty());
    assert(tail + Seq::<u8>::empty() == tail);
}

proof fn lemma_elements_shape(text: Seq<u8>) -> (res: (Seq<(Seq<u8>, Seq<u8>)>, Seq<u8>))
    requires
        elements_from(text) is Some,
    ensures
        res.0.len() > 0,
        are_values(res.0, res.1),
        all_space(res.1),
        text == joined(res.0, res.1),
        elements_from(text) == Some(firsts(res.0)),
    decreases text.len(),
{
    let end = json_end(text)->0 as int;
    let element = text.take(end);
    let rest = text.skip(end);
    assert(text == element + rest);
    lemma_untrimmed(rest);
    let gap = rest.take(rest.len() - trimmed(rest).len());
    let core = trimmed(rest);
    if opens(rest, 0x2C) {
        let next = behind(rest);
        assert(core == seq![0x2Cu8] + next);
        let (others, tail) = lemma_elements_shape(next);
        let items = seq![(element, gap)] + others;
        assert(items.skip(1) == others);
        assert(text == joined(items, tail));
        assert forall|i: int| 0 <= i < items.len() implies (#[trigger] items[i]).0.len() > 0
            && all_space(items[i].1) && json_end(joined(items.skip(i), tail)) == Some(
            items[i].0.len(),
        ) by {
            if i == 0 {
                assert(items.skip(0) == items);
            } else {
                assert(items[i] == others[i - 1]);
                assert(items.skip(i) == others.skip(i - 1));
            }
        }
        assert(firsts(items) == seq![element] + firsts(others));
        (items, tail)
    } else {
        let tail = behind(rest);
        assert(core == seq![0x5Du8] + tail);
        lemma_untrimmed(tail);
        assert(tail.take(tail.len() as int) == tail);
        let items = seq![(element, gap)];
        assert(text == joined(items, tail));
        assert forall|i: int| 0 <= i < items.len() implies (#[trigger] items[i]).0.len() > 0
            && all_space(items[i].1) && json_end(joined(items.skip(i), tail)) == Some(
            items[i].0.len(),
        ) by {
            assert(items.skip(0) == items);
        }
        assert(firsts(items) == seq![element]);
        (items, tail)
    }
}

/// Nothing but an array has elements, and it is made of them.
pub proof fn law_arrays_are_made_of_elements(document: Seq<u8>)
    requires
        elements(document) is Some,
    ensures
        exists|lead: Seq<u8>, items: Seq<(Seq<u8>, Seq<u8>)>, gap: Seq<u8>, tail: Seq<u8>|
            all_space(lead) && all_space(gap) && all_space(tail) && are_values(items, tail)
                && elements(document) == Some(firsts(items)) && (items.len() > 0 ==> gap.len() == 0)
                && document == lead + (seq![0x5Bu8] + (gap + #[trigger] joined(items, tail))) && (
            #[trigger] all_space(lead)) && (#[trigger] all_space(gap)),
{
    lemma_untrimmed(document);
    let lead = document.take(document.len() - trimmed(document).len());
    let body = behind(document);
    assert(trimmed(document) == seq![0x5Bu8] + body);
    assert(document == lead + (seq![0x5Bu8] + body));
    if closes(body, 0x5D) {
        lemma_untrimmed(body);
        let gap = body.take(body.len() - trimmed(body).len());
        let tail = behind(body);
        assert(trimmed(body) == seq![0x5Du8] + tail);
        lemma_untrimmed(tail);
        assert(tail.take(tail.len() as int) == tail);
        let items = Seq::<(Seq<u8>, Seq<u8>)>::empty();
        assert(firsts(items) == Seq::<Seq<u8>>::empty());
        assert(document == lead + (seq![0x5Bu8] + (gap + joined(items, tail))));
        assert(all_space(gap) && all_space(lead));
    } else {
        let (items, tail) = lemma_elements_shape(body);
        let gap = Seq::<u8>::empty();
        assert(gap + joined(items, tail) == body);
        assert(document == lead + (seq![0x5Bu8] + (gap + joined(items, tail))));
        assert(all_space(gap) && all_space(lead));
    }
}

/// A member as it is written: its key, the white space before the colon, its value,
/// and the white space behind that.
pub struct Written {
    pub key: Seq<u8>,
    pub before: Seq<u8>,
    pub value: Seq<u8>,
    pub after: Seq<u8>,
}

/// An object's members from the first key on, separated by commas and closed by a
/// brace, with white space behind that.
pub open spec fn joined_members(items: Seq<Written>, tail: Seq<u8>) -> Seq<u8>
    decreases items.len(), 1int,
{
    if items.len() == 0 {
        seq![0x7Du8] + tail
    } else {
        items[0].key + (items[0].before + (seq![0x3Au8] + from_value(items, tail)))
    }
}

/// The same, from the first value on.
pub open spec fn from_value(items: Seq<Written>, tail: Seq<u8>) -> Seq<u8>
    decreases items.len(), 0int,
{
    if items.len() == 0 {
        tail
    } else if items.len() == 1 {
        items[0].value + (items[0].after + (seq![0x7Du8] + tail))
    } else {
        items[0].value + (items[0].after + (seq![0x2Cu8] + joined_members(items.skip(1), tail)))
    }
}

/// Whether each key is read as its name, and each value as one of its whole length,
/// where they stand.
pub open spec fn are_members(items: Seq<Written>, names: Seq<Seq<char>>, tail: Seq<u8>) -> bool {
    &&& names.len() == items.len()
    &&& forall|i: int|
        0 <= i < items.len() ==> {
            &&& (#[trigger] items[i]).key.len() > 0
            &&& items[i].value.len() > 0
            &&& all_space(items[i].before)
            &&& all_space(items[i].after)
            &&& json_end(joined_members(items.skip(i), tail)) == Some(items[i].key.len())
            &&& json_text(items[i].key) == Some(Some(names[i]))
            &&& json_end(from_value(items.skip(i), tail)) == Some(items[i].value.len())
        }
}

pub open spec fn by_name(items: Seq<Written>, names: Seq<Seq<char>>) -> Seq<(Seq<char>, Seq<u8>)> {
    Seq::new(items.len(), |i: int| (names[i], items[i].value))
}

proof fn lemma_members_read(items: Seq<Written>, names: Seq<Seq<char>>, tail: Seq<u8>)
    requires
        items.len() > 0,
        are_members(items, names, tail),
        all_space(tail),
    ensures
        members_from(joined_members(items, tail)) == Some(by_name(items, names)),
    decreases items.len(),
{
    let text = joined_members(items, tail);
    let item = items[0];
    assert(items.skip(0) == items);
    let value = from_value(items, tail);
    let rest = item.before + (seq![0x3Au8] + value);
    assert(text == item.key + rest);
    assert(text.take(item.key.len() as int) == item.key);
    assert(text.skip(item.key.len() as int) == rest);
    lemma_trimmed(item.before, seq![0x3Au8] + value);
    assert((seq![0x3Au8] + value).skip(1) == value);
    assert(behind(rest) == value);
    if items.len() == 1 {
        let more = item.after + (seq![0x7Du8] + tail);
        assert(value == item.value + more);
        assert(value.take(item.value.len() as int) == item.value);
        assert(value.skip(item.value.len() as int) == more);
        lemma_trimmed(item.after, seq![0x7Du8] + tail);
        assert((seq![0x7Du8] + tail).skip(1) == tail);
        lemma_trimmed(tail, Seq::empty());
        assert(tail + Seq::<u8>::empty() == tail);
        assert(by_name(items, names) == seq![(names[0], item.value)]);
    } else {
        let others = items.skip(1);
        let next = joined_members(others, tail);
        let more = item.after + (seq![0x2Cu8] + next);
        assert(value == item.value + more);
        assert(value.take(item.value.len() as int) == item.value);
        assert(value.skip(item.value.len() as int) == more);
        lemma_trimmed(item.after, seq![0x2Cu8] + next);
        assert((seq![0x2Cu8] + next).skip(1) == next);
        let named = names.skip(1);
        assert forall|i: int| 0 <= i < others.len() implies {
            &&& (#[trigger] others[i]).key.len() > 0
            &&& others[i].value.len() > 0
            &&& all_space(others[i].before)
            &&& all_space(others[i].after)
            &&& json_end(joined_members(others.skip(i), tail)) == Some(others[i].key.len())
            &&& json_text(others[i].key) == Some(Some(named[i]))
            &&& json_end(from_value(others.skip(i), tail)) == Some(others[i].value.len())
        } by {
            assert(others[i] == items[i + 1]);
            assert(others.skip(i) == items.skip(i + 1));
            assert(named[i] == names[i + 1]);
        }
        lemma_members_read(others, named, tail);
        assert(by_name(items, names) == seq![(names[0], item.value)] + by_name(others, named));
    }
}

/// An object is split into its members, all of them and in order.
pub proof fn law_objects_are_split(
    lead: Seq<u8>,
    items: Seq<Written>,
    names: Seq<Seq<char>>,
    tail: Seq<u8>,
)
    requires
        all_space(lead),
        all_space(tail),
        items.len() > 0,
        are_members(items, names, tail),
        !opens(items[0].key, 0x7D),
        trimmed(items[0].key).len() > 0,
    ensures
        members(lead + (seq![0x7Bu8] + joined_members(items, tail))) == Some(by_name(items, names)),
{
    let body = joined_members(items, tail);
    lemma_trimmed(lead, seq![0x7Bu8] + body);
    assert((seq![0x7Bu8] + body).skip(1) == body);
    lemma_members_read(items, names, tail);
    let first = items[0].key;
    lemma_untrimmed(first);
    let space = first.take(first.len() - trimmed(first).len());
    let core = trimmed(first);
    let rest = body.skip(first.len() as int);
    assert(body == first + rest);
    assert(first == space + core);
    assert(body == space + (core + rest));
    lemma_core_starts(first);
    lemma_trimmed(space, core + rest);
    assert((core + rest)[0] == core[0]);
}

/// An object may be empty.
pub proof fn law_empty_objects_have_no_members(lead: Seq<u8>, gap: Seq<u8>, tail: Seq<u8>)
    requires
        all_space(lead),
        all_space(gap),
        all_space(tail),
    ensures
        members(lead + (seq![0x7Bu8] + (gap + (seq![0x7Du8] + tail)))) == Some(
            Seq::<(Seq<char>, Seq<u8>)>::empty(),
        ),
{
    let body = gap + (seq![0x7Du8] + tail);
    lemma_trimmed(lead, seq![0x7Bu8] + body);
    assert((seq![0x7Bu8] + body).skip(1) == body);
    lemma_trimmed(gap, seq![0x7Du8] + tail);
    assert((seq![0x7Du8] + tail).skip(1) == tail);
    lemma_trimmed(tail, Seq::empty());
    assert(tail + Seq::<u8>::empty() == tail);
}

proof fn lemma_members_shape(text: Seq<u8>) -> (res: (Seq<Written>, Seq<Seq<char>>, Seq<u8>))
    requires
        members_from(text) is Some,
    ensures
        res.0.len() > 0,
        are_members(res.0, res.1, res.2),
        all_space(res.2),
        text == joined_members(res.0, res.2),
        members_from(text) == Some(by_name(res.0, res.1)),
    decreases text.len(),
{
    let end = json_end(text)->0 as int;
    let key = text.take(end);
    let rest = text.skip(end);
    let name = json_text(key)->0->0;
    assert(text == key + rest);
    lemma_untrimmed(rest);
    let before = rest.take(rest.len() - trimmed(rest).len());
    let from = behind(rest);
    assert(trimmed(rest) == seq![0x3Au8] + from);
    let length = json_end(from)->0 as int;
    let value = from.take(length);
    let more = from.skip(length);
    assert(from == value + more);
    lemma_untrimmed(more);
    let after = more.take(more.len() - trimmed(more).len());
    let item = Written { key, before, value, after };
    if opens(more, 0x2C) {
        let next = behind(more);
        assert(trimmed(more) == seq![0x2Cu8] + next);
        let (others, named, tail) = lemma_members_shape(next);
        let items = seq![item] + others;
        let names = seq![name] + named;
        assert(items.skip(1) == others);
        assert(from == from_value(items, tail));
        assert(text == joined_members(items, tail));
        assert forall|i: int| 0 <= i < items.len() implies {
            &&& (#[trigger] items[i]).key.len() > 0
            &&& items[i].value.len() > 0
            &&& all_space(items[i].before)
            &&& all_space(items[i].after)
            &&& json_end(joined_members(items.skip(i), tail)) == Some(items[i].key.len())
            &&& json_text(items[i].key) == Some(Some(names[i]))
            &&& json_end(from_value(items.skip(i), tail)) == Some(items[i].value.len())
        } by {
            if i == 0 {
                assert(items.skip(0) == items);
            } else {
                assert(items[i] == others[i - 1]);
                assert(items.skip(i) == others.skip(i - 1));
                assert(names[i] == named[i - 1]);
            }
        }
        assert(by_name(items, names) == seq![(name, value)] + by_name(others, named));
        (items, names, tail)
    } else {
        let tail = behind(more);
        assert(trimmed(more) == seq![0x7Du8] + tail);
        lemma_untrimmed(tail);
        assert(tail.take(tail.len() as int) == tail);
        let items = seq![item];
        let names = seq![name];
        assert(from == from_value(items, tail));
        assert(text == joined_members(items, tail));
        assert(items.skip(0) == items);
        assert(are_members(items, names, tail));
        assert(by_name(items, names) == seq![(name, value)]);
        (items, names, tail)
    }
}

/// Nothing but an object has members, and it is made of them.
pub proof fn law_objects_are_made_of_members(document: Seq<u8>)
    requires
        members(document) is Some,
    ensures
        exists|
            lead: Seq<u8>,
            items: Seq<Written>,
            names: Seq<Seq<char>>,
            gap: Seq<u8>,
            tail: Seq<u8>,
        |
            are_members(items, names, tail) && members(document) == Some(by_name(items, names))
                && all_space(tail) && (items.len() > 0 ==> gap.len() == 0) && document == lead + (
            seq![0x7Bu8] + (gap + joined_members(items, tail))) && (#[trigger] all_space(lead)) && (
            #[trigger] all_space(gap)) && (#[trigger] are_members(items, names, tail)),
{
    lemma_untrimmed(document);
    let lead = document.take(document.len() - trimmed(document).len());
    let body = behind(document);
    assert(trimmed(document) == seq![0x7Bu8] + body);
    assert(document == lead + (seq![0x7Bu8] + body));
    if closes(body, 0x7D) {
        lemma_untrimmed(body);
        let gap = body.take(body.len() - trimmed(body).len());
        let tail = behind(body);
        assert(trimmed(body) == seq![0x7Du8] + tail);
        lemma_untrimmed(tail);
        assert(tail.take(tail.len() as int) == tail);
        let items = Seq::<Written>::empty();
        let names = Seq::<Seq<char>>::empty();
        assert(by_name(items, names) == Seq::<(Seq<char>, Seq<u8>)>::empty());
        assert(document == lead + (seq![0x7Bu8] + (gap + joined_members(items, tail))));
        assert(are_members(items, names, tail));
        assert(all_space(gap) && all_space(lead));
    } else {
        let (items, names, tail) = lemma_members_shape(body);
        let gap = Seq::<u8>::empty();
        assert(gap + joined_members(items, tail) == body);
        assert(document == lead + (seq![0x7Bu8] + (gap + joined_members(items, tail))));
        assert(are_members(items, names, tail));
        assert(all_space(gap) && all_space(lead));
    }
}

proof fn lemma_called_at(members: Seq<(Seq<char>, Seq<u8>)>, name: Seq<char>, k: int)
    requires
        0 <= k < members.len(),
        members[k].0 == name,
    ensures
        called(members, name).len() >= 1,
        called(members, name).len() == 1 ==> called(members, name)[0] == members[k],
    decreases members.len(),
{
    reveal(Seq::filter);
    if k < members.len() - 1 {
        lemma_called_at(members.drop_last(), name, k);
    }
}

proof fn lemma_called_twice(members: Seq<(Seq<char>, Seq<u8>)>, name: Seq<char>, k: int, l: int)
    requires
        0 <= k < l < members.len(),
        members[k].0 == name,
        members[l].0 == name,
    ensures
        called(members, name).len() >= 2,
    decreases members.len(),
{
    reveal(Seq::filter);
    let front = members.drop_last();
    if l < members.len() - 1 {
        lemma_called_twice(front, name, k, l);
    } else {
        lemma_called_at(front, name, k);
    }
}

proof fn lemma_called_nowhere(members: Seq<(Seq<char>, Seq<u8>)>, name: Seq<char>)
    requires
        forall|k: int| 0 <= k < members.len() ==> (#[trigger] members[k]).0 != name,
    ensures
        called(members, name).len() == 0,
    decreases members.len(),
{
    reveal(Seq::filter);
    if members.len() > 0 {
        let front = members.drop_last();
        assert(members[members.len() - 1].0 != name);
        assert forall|k: int| 0 <= k < front.len() implies (#[trigger] front[k]).0 != name by {
            assert(front[k] == members[k]);
        }
        lemma_called_nowhere(front, name);
    }
}

proof fn lemma_called_once(members: Seq<(Seq<char>, Seq<u8>)>, name: Seq<char>)
    requires
        forall|k: int, l: int|
            0 <= k < l < members.len() ==> !((#[trigger] members[k]).0 == name && (
            #[trigger] members[l]).0 == name),
    ensures
        called(members, name).len() <= 1,
    decreases members.len(),
{
    reveal(Seq::filter);
    if members.len() > 0 {
        let front = members.drop_last();
        let last = members.len() - 1;
        assert forall|k: int, l: int| 0 <= k < l < front.len() implies !((
        #[trigger] front[k]).0 == name && (#[trigger] front[l]).0 == name) by {
            assert(front[k] == members[k] && front[l] == members[l]);
        }
        lemma_called_once(front, name);
        if members[last].0 == name {
            assert forall|k: int| 0 <= k < front.len() implies (#[trigger] front[k]).0 != name by {
                assert(front[k] == members[k]);
                assert(!(members[k].0 == name && members[last].0 == name));
            }
            lemma_called_nowhere(front, name);
        }
    }
}

/// A structure that is an object has for each field the value of the member with that
/// name, and none where there is no such member; two members with the name of one
/// field make it none at all. Other members do not matter.
pub proof fn law_structures_are_read_by_name(
    document: Seq<u8>,
    names: Seq<Seq<char>>,
    all: Seq<(Seq<char>, Seq<u8>)>,
    i: int,
    k: int,
    l: int,
)
    requires
        members(document) == Some(all),
        0 <= i < names.len(),
    ensures
        0 <= k < l < all.len() && all[k].0 == names[i] && all[l].0 == names[i] ==> structure(
            document,
            names,
        ) is None,
        (forall|j: int, k: int, l: int|
            0 <= j < names.len() && 0 <= k < l < all.len() ==> !((#[trigger] all[k]).0
                == #[trigger] names[j] && (#[trigger] all[l]).0 == names[j])) ==> structure(
            document,
            names,
        ) is Some,
        structure(document, names) matches Some(fields) ==> {
            &&& fields.len() == names.len()
            &&& 0 <= k < all.len() && all[k].0 == names[i] ==> fields[i] == Some(all[k].1)
            &&& (forall|k: int| 0 <= k < all.len() ==> (#[trigger] all[k]).0 != names[i])
                ==> fields[i] is None
        },
{
    if 0 <= k < l < all.len() && all[k].0 == names[i] && all[l].0 == names[i] {
        lemma_called_twice(all, names[i], k, l);
    }
    if forall|j: int, k: int, l: int|
        0 <= j < names.len() && 0 <= k < l < all.len() ==> !((#[trigger] all[k]).0
            == #[trigger] names[j] && (#[trigger] all[l]).0 == names[j]) {
        assert forall|j: int| 0 <= j < names.len() implies called(all, #[trigger] names[j]).len()
            <= 1 by {
            lemma_called_once(all, names[j]);
        }
    }
    if structure(document, names) is Some {
        assert(called(all, names[i]).len() <= 1);
        if 0 <= k < all.len() && all[k].0 == names[i] {
            lemma_called_at(all, names[i], k);
        }
        if forall|k: int| 0 <= k < all.len() ==> (#[trigger] all[k]).0 != names[i] {
            lemma_called_nowhere(all, names[i]);
        }
    }
}

/// A structure that is an array has one element for each field, in order, and is none
/// where it has more or fewer; nothing else is a structure.
pub proof fn law_structures_may_be_arrays(document: Seq<u8>, names: Seq<Seq<char>>, i: int)
    requires
        members(document) is None,
    ensures
        elements(document) is None ==> structure(document, names) is None,
        elements(document) matches Some(all) ==> {
            &&& structure(document, names) is Some <==> all.len() == names.len()
            &&& structure(document, names) matches Some(fields) ==> fields.len() == names.len() && (0
                <= i < names.len() ==> fields[i] == Some(all[i]))
        },
{
}

/// Each field of a record is its own member's, read as a text or as a number.
pub proof fn law_records_are_read_by_name(
    document: Seq<u8>,
    all: Seq<(Seq<char>, Seq<u8>)>,
    record: RawRecordView,
    k: int,
)
    requires
        members(document) == Some(all),
        raw_record(document) == Some(record),
        0 <= k < all.len(),
    ensures
        all[k].0 == "bn"@ ==> json_text(all[k].1) == Some(record.bn),
        all[k].0 == "bt"@ ==> json_number(all[k].1) == Some(record.bt),
        all[k].0 == "bu"@ ==> json_text(all[k].1) == Some(record.bu),
        all[k].0 == "n"@ ==> json_text(all[k].1) == Some(record.n),
        all[k].0 == "u"@ ==> json_text(all[k].1) == Some(record.u),
        all[k].0 == "t"@ ==> json_number(all[k].1) == Some(record.t),
        all[k].0 == "v"@ ==> json_number(all[k].1) == Some(record.v),
        all[k].0 == "vs"@ ==> json_text(all[k].1) == Some(record.vs),
{
    let names = record_fields();
    law_structures_are_read_by_name(document, names, all, 0, k, k);
    law_structures_are_read_by_name(document, names, all, 1, k, k);
    law_structures_are_read_by_name(document, names, all, 2, k, k);
    law_structures_are_read_by_name(document, names, all, 3, k, k);
    law_structures_are_read_by_name(document, names, all, 4, k, k);
    law_structures_are_read_by_name(document, names, all, 5, k, k);
    law_structures_are_read_by_name(document, names, all, 6, k, k);
    law_structures_are_read_by_name(document, names, all, 7, k, k);
}

/// Whether no member is called so.
pub open spec fn is_missing(all: Seq<(Seq<char>, Seq<u8>)>, name: Seq<char>) -> bool {
    forall|k: int| 0 <= k < all.len() ==> (#[trigger] all[k]).0 != name
}

/// A field of a record that no member gives is absent.
pub proof fn law_missing_fields_of_records_are_absent(
    document: Seq<u8>,
    all: Seq<(Seq<char>, Seq<u8>)>,
    record: RawRecordView,
)
    requires
        members(document) == Some(all),
        raw_record(document) == Some(record),
    ensures
        is_missing(all, "bn"@) ==> record.bn is None,
        is_missing(all, "bt"@) ==> record.bt is None,
        is_missing(all, "bu"@) ==> record.bu is None,
        is_missing(all, "n"@) ==> record.n is None,
        is_missing(all, "u"@) ==> record.u is None,
        is_missing(all, "t"@) ==> record.t is None,
        is_missing(all, "v"@) ==> record.v is None,
        is_missing(all, "vs"@) ==> record.vs is None,
{
    let names = record_fields();
    law_structures_are_read_by_name(document, names, all, 0, 0, 0);
    law_structures_are_read_by_name(document, names, all, 1, 0, 0);
    law_structures_are_read_by_name(document, names, all, 2, 0, 0);
    law_structures_are_read_by_name(document, names, all, 3, 0, 0);
    law_structures_are_read_by_name(document, names, all, 4, 0, 0);
    law_structures_are_read_by_name(document, names, all, 5, 0, 0);
    law_structures_are_read_by_name(document, names, all, 6, 0, 0);
    law_structures_are_read_by_name(document, names, all, 7, 0, 0);
}

/// Whether the member at `k` can be a part of a record: a text or a number where its
/// name asks for one, anything where it is none of a record's.
pub open spec fn fits_a_record(member: (Seq<char>, Seq<u8>)) -> bool {
    let (name, value) = member;
    &&& name == "bn"@ || name == "bu"@ || name == "n"@ || name == "u"@ || name == "vs"@
        ==> json_text(value) is Some
    &&& name == "bt"@ || name == "t"@ || name == "v"@ ==> json_number(value) is Some
}

/// Whether a name is that of a record's field.
pub open spec fn is_of_a_record(name: Seq<char>) -> bool {
    ||| name == "bn"@
    ||| name == "bt"@
    ||| name == "bu"@
    ||| name == "n"@
    ||| name == "u"@
    ||| name == "t"@
    ||| name == "v"@
    ||| name == "vs"@
}

/// Every object whose members fit, and give no field of a record twice, is a record.
pub proof fn law_fitting_objects_are_records(
    document: Seq<u8>,
    all: Seq<(Seq<char>, Seq<u8>)>,
)
    requires
        members(document) == Some(all),
        forall|k: int| 0 <= k < all.len() ==> fits_a_record(#[trigger] all[k]),
        forall|k: int, l: int|
            0 <= k < l < all.len() && is_of_a_record((#[trigger] all[k]).0) ==> all[k].0 != (
            #[trigger] all[l]).0,
    ensures
        raw_record(document) is Some,
{
    let names = record_fields();
    assert forall|j: int| 0 <= j < names.len() implies called(all, #[trigger] names[j]).len()
        <= 1 by {
        assert(is_of_a_record(names[j]));
        lemma_called_once(all, names[j]);
    }
    let fields = structure(document, names)->0;
    assert forall|i: int| 0 <= i < 8 implies (#[trigger] fields[i]) is None || exists|k: int|
        0 <= k < all.len() && #[trigger] all[k] == (names[i], fields[i]->0) by {
        if exists|k: int| 0 <= k < all.len() && (#[trigger] all[k]).0 == names[i] {
            let k = choose|k: int| 0 <= k < all.len() && (#[trigger] all[k]).0 == names[i];
            law_structures_are_read_by_name(document, names, all, i, k, k);
            assert(all[k] == (names[i], fields[i]->0));
        } else {
            law_structures_are_read_by_name(document, names, all, i, 0, 0);
        }
    }
    assert(fields[0] is None || json_text(fields[0]->0) is Some);
    assert(fields[1] is None || json_number(fields[1]->0) is Some);
    assert(fields[2] is None || json_text(fields[2]->0) is Some);
    assert(fields[3] is None || json_text(fields[3]->0) is Some);
    assert(fields[4] is None || json_text(fields[4]->0) is Some);
    assert(fields[5] is None || json_number(fields[5]->0) is Some);
    assert(fields[6] is None || json_number(fields[6]->0) is Some);
    assert(fields[7] is None || json_text(fields[7]->0) is Some);
}

/// A record may be an array of its eight fields in their order.
pub proof fn law_records_may_be_arrays(document: Seq<u8>, all: Seq<Seq<u8>>)
    requires
        members(document) is None,
        elements(document) == Some(all),
    ensures
        raw_record(document) is Some <==> all.len() == 8 && json_text(all[0]) is Some
            && json_number(all[1]) is Some && json_text(all[2]) is Some && json_text(all[3]) is Some
            && json_text(all[4]) is Some && json_number(all[5]) is Some && json_number(all[6])
            is Some && json_text(all[7]) is Some,
        raw_record(document) matches Some(record) ==> {
            &&& json_text(all[0]) == Some(record.bn)
            &&& json_number(all[1]) == Some(record.bt)
            &&& json_text(all[2]) == Some(record.bu)
            &&& json_text(all[3]) == Some(record.n)
            &&& json_text(all[4]) == Some(record.u)
            &&& json_number(all[5]) == Some(record.t)
            &&& json_number(all[6]) == Some(record.v)
            &&& json_text(all[7]) == Some(record.vs)
        },
{
}

/// A payload holds the records that its elements are, one for each; it holds none
/// where it is no array or an element is no record.
pub proof fn law_payloads_hold_their_records(payload: Seq<u8>, i: int)
    ensures
        elements(payload) is None ==> raw_records(payload) is None,
        elements(payload) matches Some(all) ==> {
            &&& 0 <= i < all.len() && raw_record(all[i]) is None ==> raw_records(payload) is None
            &&& (forall|j: int| 0 <= j < all.len() ==> raw_record(#[trigger] all[j]) is Some)
                ==> raw_records(payload) is Some
            &&& raw_records(payload) matches Some(records) ==> records.len() == all.len() && (0 <= i
                < all.len() ==> raw_record(all[i]) == Some(records[i]))
        },
{
}

/// Each field of an identity is its own member's, read as what it is.
pub proof fn law_identities_are_read_by_name(
    document: Seq<u8>,
    all: Seq<(Seq<char>, Seq<u8>)>,
    info: RawInfoView,
    k: int,
)
    requires
        members(document) == Some(all),
        raw_info(document) == Some(info),
    ensures
        0 <= k < all.len() ==> {
            &&& all[k].0 == "schema"@ ==> json_u32(all[k].1) == Some(info.schema)
            &&& all[k].0 == "serial"@ ==> json_u64(all[k].1) == Some(info.serial)
            &&& all[k].0 == "name"@ ==> json_text(all[k].1) == Some(info.name)
            &&& all[k].0 == "device_model"@ ==> json_text(all[k].1) == Some(info.device_model)
            &&& all[k].0 == "lines"@ ==> json_u32(all[k].1) == Some(info.lines)
            &&& all[k].0 == "strings"@ ==> json_u32(all[k].1) == Some(info.strings)
            &&& all[k].0 == "max_power_watts"@ ==> json_u32_members(all[k].1) == Some(
                info.max_power_watts,
            )
        },
        is_missing(all, "schema"@) ==> info.schema is None,
        is_missing(all, "serial"@) ==> info.serial is None,
        is_missing(all, "name"@) ==> info.name is None,
        is_missing(all, "device_model"@) ==> info.device_model is None,
        is_missing(all, "lines"@) ==> info.lines is None,
        is_missing(all, "strings"@) ==> info.strings is None,
        is_missing(all, "max_power_watts"@) ==> info.max_power_watts is None,
{
    let names = info_fields();
    law_structures_are_read_by_name(document, names, all, 0, k, k);
    law_structures_are_read_by_name(document, names, all, 1, k, k);
    law_structures_are_read_by_name(document, names, all, 2, k, k);
    law_structures_are_read_by_name(document, names, all, 3, k, k);
    law_structures_are_read_by_name(document, names, all, 4, k, k);
    law_structures_are_read_by_name(document, names, all, 5, k, k);
    law_structures_are_read_by_name(document, names, all, 6, k, k);
}

/// Whether a member can be a part of an identity.
pub open spec fn fits_an_identity(member: (Seq<char>, Seq<u8>)) -> bool {
    let (name, value) = member;
    &&& name == "schema"@ || name == "lines"@ || name == "strings"@ ==> json_u32(value) is Some
    &&& name == "serial"@ ==> json_u64(value) is Some
    &&& name == "name"@ || name == "device_model"@ ==> json_text(value) is Some
    &&& name == "max_power_watts"@ ==> json_u32_members(value) is Some
}

/// Whether a name is that of an identity's field.
pub open spec fn is_of_an_identity(name: Seq<char>) -> bool {
    ||| name == "schema"@
    ||| name == "serial"@
    ||| name == "name"@
    ||| name == "device_model"@
    ||| name == "lines"@
    ||| name == "strings"@
    ||| name == "max_power_watts"@
}

/// Every object whose members fit, and give no field of an identity twice, is one.
pub proof fn law_fitting_objects_are_identities(
    document: Seq<u8>,
    all: Seq<(Seq<char>, Seq<u8>)>,
)
    requires
        members(document) == Some(all),
        forall|k: int| 0 <= k < all.len() ==> fits_an_identity(#[trigger] all[k]),
        forall|k: int, l: int|
            0 <= k < l < all.len() && is_of_an_identity((#[trigger] all[k]).0) ==> all[k].0 != (
            #[trigger] all[l]).0,
    ensures
        raw_info(document) is Some,
{
    let names = info_fields();
    assert forall|j: int| 0 <= j < names.len() implies called(all, #[trigger] names[j]).len()
        <= 1 by {
        assert(is_of_an_identity(names[j]));
        lemma_called_once(all, names[j]);
    }
    let fields = structure(document, names)->0;
    assert forall|i: int| 0 <= i < 7 implies (#[trigger] fields[i]) is None || exists|k: int|
        0 <= k < all.len() && #[trigger] all[k] == (names[i], fields[i]->0) by {
        if exists|k: int| 0 <= k < all.len() && (#[trigger] all[k]).0 == names[i] {
            let k = choose|k: int| 0 <= k < all.len() && (#[trigger] all[k]).0 == names[i];
            law_structures_are_read_by_name(document, names, all, i, k, k);
            assert(all[k] == (names[i], fields[i]->0));
        } else {
            law_structures_are_read_by_name(document, names, all, i, 0, 0);
        }
    }
    assert(fields[0] is None || json_u32(fields[0]->0) is Some);
    assert(fields[1] is None || json_u64(fields[1]->0) is Some);
    assert(fields[2] is None || json_text(fields[2]->0) is Some);
    assert(fields[3] is None || json_text(fields[3]->0) is Some);
    assert(fields[4] is None || json_u32(fields[4]->0) is Some);
    assert(fields[5] is None || json_u32(fields[5]->0) is Some);
    assert(fields[6] is None || json_u32_members(fields[6]->0) is Some);
}

/// An identity may be an array of its seven fields in their order.
pub proof fn law_identities_may_be_arrays(document: Seq<u8>, all: Seq<Seq<u8>>)
    requires
        members(document) is None,
        elements(document) == Some(all),
    ensures
        raw_info(document) is Some <==> all.len() == 7 && json_u32(all[0]) is Some && json_u64(
            all[1],
        ) is Some && json_text(all[2]) is Some && json_text(all[3]) is Some && json_u32(all[4])
            is Some && json_u32(all[5]) is Some && json_u32_members(all[6]) is Some,
        raw_info(document) matches Some(info) ==> {
            &&& json_u32(all[0]) == Some(info.schema)
            &&& json_u64(all[1]) == Some(info.serial)
            &&& json_text(all[2]) == Some(info.name)
            &&& json_text(all[3]) == Some(info.device_model)
            &&& json_u32(all[4]) == Some(info.lines)
            &&& json_u32(all[5]) == Some(info.strings)
            &&& json_u32_members(all[6]) == Some(info.max_power_watts)
        },
{
}

/// What is neither an object nor an array is neither a record nor an identity, and
/// holds no records.
pub proof fn law_other_documents_hold_nothing(document: Seq<u8>)
    requires
        members(document) is None,
        elements(document) is None,
    ensures
        raw_record(document) is None,
        raw_info(document) is None,
        raw_records(document) is None,
{
}

proof fn lemma_trimmed_end(text: Seq<u8>, space: Seq<u8>)
    requires
        all_space(space),
        text.len() > 0 ==> !is_space(text.last()),
    ensures
        trimmed_end(text + space) == text,
    decreases space.len(),
{
    let whole = text + space;
    if space.len() == 0 {
        assert(whole == text);
    } else {
        assert(whole.last() == space[space.len() - 1]);
        assert(whole.drop_last() == text + space.drop_last());
        lemma_trimmed_end(text, space.drop_last());
    }
}

/// The characters of a document are its bytes without the white space around it.
pub proof fn law_white_space_around_does_not_count(lead: Seq<u8>, core: Seq<u8>, tail: Seq<u8>)
    requires
        all_space(lead),
        all_space(tail),
        core.len() > 0,
        !is_space(core[0]),
        !is_space(core.last()),
    ensures
        characters(lead + (core + tail)).len() == core.len(),
        forall|i: int|
            0 <= i < core.len() ==> #[trigger] characters(lead + (core + tail))[i] == core[i] as char,
{
    lemma_trimmed(lead, core + tail);
    lemma_trimmed_end(core, tail);
}

/// Unsigned numbers are digits without a leading zero that denote no more than the
/// largest one; `null` is none of them, and nothing else is read.
pub proof fn law_unsigned_numbers_are_digits(document: Seq<u8>, max: nat)
    ensures
        ({
            let text = characters(document);
            let number = text.len() > 0 && all_digits(text) && (text[0] == '0' ==> text.len() == 1);
            &&& json_unsigned(document, max) == Some(None::<nat>) <==> text == "null"@
            &&& number && decimal_value(text) <= max ==> json_unsigned(document, max) == Some(
                Some(decimal_value(text)),
            )
            &&& text != "null"@ && !(number && decimal_value(text) <= max) ==> json_unsigned(
                document,
                max,
            ) is None
        }),
{
    let text = characters(document);
    reveal_strlit("null");
    assert("null"@[0] == 'n');
    assert forall|i: int| 0 <= i < text.len() implies is_digit(#[trigger] text[i]) == ('0'
        <= text[i] <= '9') by {}
    if all_digits(text) && text.len() > 0 {
        assert('0' <= text[0] <= '9');
    }
}

/// Digits come out as they were published: a plain decimal without leading zeros that
/// a record of the payload gives as its value or as a time is that record's literal,
/// character for character.
pub proof fn law_digits_come_out_as_published(
    payload: Seq<u8>,
    texts: Seq<Seq<u8>>,
    records: Seq<RawRecordView>,
    i: int,
    all: Seq<(Seq<char>, Seq<u8>)>,
    k: int,
    negative: bool,
    whole: Seq<char>,
    fraction: Seq<char>,
)
    requires
        numbers_kept(payload),
        elements(payload) == Some(texts),
        raw_records(payload) == Some(records),
        0 <= i < texts.len(),
        members(texts[i]) == Some(all),
        0 <= k < all.len(),
        whole.len() > 0,
        all_digits(whole),
        all_digits(fraction),
        whole[0] == '0' ==> whole.len() == 1,
        characters(all[k].1) == written(negative, whole, fraction),
    ensures
        all[k].0 == "v"@ ==> records[i].v == Some(written(negative, whole, fraction)),
        all[k].0 == "t"@ ==> records[i].t == Some(written(negative, whole, fraction)),
        all[k].0 == "bt"@ ==> records[i].bt == Some(written(negative, whole, fraction)),
{
    lemma_written_parts(negative, whole, fraction);
    let names = record_fields();
    law_payloads_hold_their_records(payload, i);
    law_records_are_read_by_name(texts[i], all, records[i], k);
    law_structures_are_read_by_name(texts[i], names, all, 1, k, k);
    law_structures_are_read_by_name(texts[i], names, all, 5, k, k);
    law_structures_are_read_by_name(texts[i], names, all, 6, k, k);
    assert(record_numbers_kept(texts[i]));
}

} // verus!
