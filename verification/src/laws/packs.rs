//! How packs are put together.
use vstd::prelude::*;

use crate::senml::{
    base_unit, pack_of, reading, readings, scaled_literal, seconds, RawRecordView,
    RecordView, ValueView,
};

verus! {

/// Whether the record at `i` has a base time and none behind it has one.
pub open spec fn is_last_base_time(raw: Seq<RawRecordView>, i: int) -> bool {
    raw[i].bt is Some && forall|j: int| i < j < raw.len() ==> (#[trigger] raw[j]).bt is None
}

/// Records make up a pack exactly where one of them has a base time that can be
/// read and none behind it has another.
pub proof fn law_packs_need_a_base_time(raw: Seq<RawRecordView>)
    ensures
        pack_of(raw) is Some <==> exists|i: int|
            0 <= i < raw.len() && #[trigger] is_last_base_time(raw, i) && seconds(raw[i].bt->0)
                is Some,
    decreases raw.len(),
{
    if exists|i: int| 0 <= i < raw.len() && is_last_base_time(raw, i) {
        let i = choose|i: int| 0 <= i < raw.len() && is_last_base_time(raw, i);
        law_the_last_base_time_counts(raw, i);
        assert forall|j: int| 0 <= j < raw.len() && is_last_base_time(raw, j) implies j == i by {
            assert(raw[i].bt is Some && raw[j].bt is Some);
        }
    } else if raw.len() > 0 {
        let front = raw.drop_last();
        let last = raw.len() - 1;
        assert(!is_last_base_time(raw, last));
        assert forall|i: int| 0 <= i < front.len() implies !is_last_base_time(front, i) by {
            if is_last_base_time(front, i) {
                assert forall|j: int| i < j < raw.len() implies (#[trigger] raw[j]).bt is None by {
                    if j < last {
                        assert(front[j].bt is None);
                    }
                }
                assert(is_last_base_time(raw, i));
            }
        }
        law_packs_need_a_base_time(front);
    }
}

/// The base time of a pack is that of the last record that has one.
pub proof fn law_the_last_base_time_counts(raw: Seq<RawRecordView>, i: int)
    requires
        0 <= i < raw.len(),
        is_last_base_time(raw, i),
    ensures
        pack_of(raw) is Some <==> seconds(raw[i].bt->0) is Some,
        pack_of(raw) is Some ==> Some(pack_of(raw)->0.base_time) == seconds(raw[i].bt->0),
    decreases raw.len(),
{
    if i < raw.len() - 1 {
        assert(raw[raw.len() - 1].bt is None);
        law_the_last_base_time_counts(raw.drop_last(), i);
    }
}

/// No time is guessed: behind a base time that cannot be read there is none, and
/// a record whose own time cannot be read is skipped.
pub proof fn law_times_are_not_guessed(
    raw: Seq<RawRecordView>,
    record: RawRecordView,
    literal: Seq<char>,
)
    requires
        scaled_literal(literal, 0) is None,
    ensures
        record.bt == Some(literal) ==> pack_of(raw.push(record)) is None,
        record.t == Some(literal) ==> readings(raw.push(record)) == readings(raw),
{
    assert(raw.push(record).drop_last() == raw);
}

/// Base fields work forwards only: what records hold does not depend on those
/// behind them.
pub proof fn law_later_records_change_no_earlier_reading(
    first: Seq<RawRecordView>,
    second: Seq<RawRecordView>,
)
    ensures
        readings(first).is_prefix_of(readings(first + second)),
    decreases second.len(),
{
    if second.len() == 0 {
        assert(first + second == first);
    } else {
        law_later_records_change_no_earlier_reading(first, second.drop_last());
        assert((first + second).drop_last() == first + second.drop_last());
        assert((first + second).last() == second.last());
    }
}

/// A base unit stays in force until another is set.
pub proof fn law_base_units_last(first: Seq<RawRecordView>, second: Seq<RawRecordView>)
    requires
        forall|i: int| 0 <= i < second.len() ==> (#[trigger] second[i]).bu is None,
    ensures
        base_unit(first + second) == base_unit(first),
    decreases second.len(),
{
    if second.len() == 0 {
        assert(first + second == first);
    } else {
        let front = second.drop_last();
        assert forall|i: int| 0 <= i < front.len() implies (#[trigger] front[i]).bu is None by {
            assert(front[i] == second[i]);
        }
        law_base_units_last(first, front);
        assert((first + second).drop_last() == first + front);
        assert((first + second).last() == second.last());
        assert(second[second.len() - 1].bu is None);
    }
}

/// A record's own unit goes before the base unit, which stands in for one that
/// is missing.
pub proof fn law_own_units_come_first(raw: RawRecordView, unit: Option<Seq<char>>)
    requires
        reading(raw, unit) is Some,
    ensures
        raw.u is Some ==> reading(raw, unit)->0.unit == raw.u,
        raw.u is None ==> reading(raw, unit)->0.unit == unit,
{
}

/// Whether the record at `i` sets the base unit that is in force at the end.
pub open spec fn sets_the_unit(raw: Seq<RawRecordView>, i: int) -> bool {
    raw[i].bu is Some && forall|j: int| i < j < raw.len() ==> (#[trigger] raw[j]).bu is None
}

/// The base unit in force is that of the last record that sets one, and there is
/// none before one does.
pub proof fn law_the_last_base_unit_is_in_force(raw: Seq<RawRecordView>, i: int)
    ensures
        0 <= i < raw.len() && sets_the_unit(raw, i) ==> base_unit(raw) == raw[i].bu,
        (forall|j: int| 0 <= j < raw.len() ==> (#[trigger] raw[j]).bu is None) ==> base_unit(raw)
            is None,
    decreases raw.len(),
{
    if raw.len() > 0 {
        let front = raw.drop_last();
        law_the_last_base_unit_is_in_force(front, i);
        if raw.last().bu is None {
            assert(forall|j: int| 0 <= j < front.len() ==> front[j] == raw[j]);
        } else {
            assert(raw[raw.len() - 1].bu is Some);
        }
    }
}

/// A record with a name, a value and a readable time, if it has a time at all, adds
/// the reading that it says: its name, its own unit or else the last base unit up to
/// and with its own, its offset or else none, its number or else its text.
pub proof fn law_complete_records_are_read(
    raw: Seq<RawRecordView>,
    record: RawRecordView,
    name: Seq<char>,
    offset: i64,
)
    requires
        record.n == Some(name),
        record.v is Some || record.vs is Some,
        record.t is None ==> offset == 0,
        record.t matches Some(literal) ==> scaled_literal(literal, 0) == Some(offset),
    ensures
        ({
            let before = readings(raw);
            let after = readings(raw.push(record));
            let read = after[before.len() as int];
            &&& after.len() == before.len() + 1
            &&& forall|j: int| 0 <= j < before.len() ==> #[trigger] after[j] == before[j]
            &&& read.name == name
            &&& read.time_offset == offset
            &&& record.u is Some ==> read.unit == record.u
            &&& record.u is None ==> read.unit == base_unit(raw.push(record))
            &&& record.v matches Some(literal) ==> read.value == ValueView::Number(literal)
            &&& record.v is None ==> (record.vs matches Some(text) ==> read.value
                == ValueView::Text(text))
        }),
{
    assert(raw.push(record).drop_last() == raw);
}

/// No records hold no readings, and what a pack holds is the readings of its records.
pub proof fn law_packs_hold_the_readings(raw: Seq<RawRecordView>)
    ensures
        readings(Seq::empty()) == Seq::<RecordView>::empty(),
        pack_of(raw) matches Some(pack) ==> pack.records == readings(raw),
        pack_of(Seq::empty()) is None,
{
}

/// The base time is the whole number of seconds nearest to what the last record that
/// has one says.
pub proof fn law_base_times_are_whole_seconds(
    raw: Seq<RawRecordView>,
    i: int,
    literal: Seq<char>,
)
    requires
        0 <= i < raw.len(),
        raw[i].bt == Some(literal),
        forall|j: int| i < j < raw.len() ==> (#[trigger] raw[j]).bt is None,
    ensures
        pack_of(raw) is Some <==> scaled_literal(literal, 0) is Some,
        pack_of(raw) matches Some(pack) ==> scaled_literal(literal, 0) == Some(pack.base_time),
{
    law_the_last_base_time_counts(raw, i);
}

/// Without a base time there is no pack.
pub proof fn law_no_base_time_no_pack(raw: Seq<RawRecordView>)
    requires
        forall|j: int| 0 <= j < raw.len() ==> (#[trigger] raw[j]).bt is None,
    ensures
        pack_of(raw) is None,
    decreases raw.len(),
{
    if raw.len() > 0 {
        let front = raw.drop_last();
        assert(raw[raw.len() - 1].bt is None);
        assert forall|j: int| 0 <= j < front.len() implies (#[trigger] front[j]).bt is None by {
            assert(front[j] == raw[j]);
        }
        law_no_base_time_no_pack(front);
    }
}

/// A record without a name, or with neither number nor text, is skipped.
pub proof fn law_incomplete_records_are_skipped(raw: Seq<RawRecordView>, record: RawRecordView)
    requires
        record.n is None || (record.v is None && record.vs is None),
    ensures
        readings(raw.push(record)) == readings(raw),
{
    assert(raw.push(record).drop_last() == raw);
}

} // verus!
