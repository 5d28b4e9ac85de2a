//! What each message does to the snapshot and the identity, field by field.
use vstd::prelude::*;

use crate::domain::{
    bad_literal, bad_literals, energy_times_fit, identity, last_energy, last_named, last_text, other_schema,
    DeviceStatus, DomainMsgView, GridRelay, InverterInfoView, LinkStatus, PvSnapshot, RawInfoView,
    SourceStatus, StateView,
};
use crate::laws::history::{law_ratings_add_up, rating_sum};
use crate::laws::texts::{all_blank, is_blank, law_trimming_takes_the_blanks};
use crate::senml::{scaled_literal, PackView, RecordView, ValueView};

verus! {

/// Whether a unit is one whose thousandth Matter counts in.
pub open spec fn counts_in_thousandths(unit: Option<Seq<char>>) -> bool {
    ||| unit == Some("W"@)
    ||| unit == Some("V"@)
    ||| unit == Some("A"@)
    ||| unit == Some("Hz"@)
    ||| unit == Some("Wh"@)
}

/// What a record says in thousandths of its unit: a number, and nothing else, says
/// something.
pub open spec fn in_thousandths(record: RecordView) -> Option<i64> {
    match record.value {
        ValueView::Number(literal) => if counts_in_thousandths(record.unit) {
            scaled_literal(literal, 3)
        } else {
            None
        },
        ValueView::Text(_) => None,
    }
}

/// Whether the record at `i` is the last one with its name.
pub open spec fn is_last_of_its_name(records: Seq<RecordView>, i: int) -> bool {
    forall|j: int| i < j < records.len() ==> (#[trigger] records[j]).name != records[i].name
}

/// Whether a record is an energy total that can be read.
pub open spec fn tells_energy(record: RecordView) -> bool {
    record.name == "energy/total"@ && in_thousandths(record) is Some
}

proof fn lemma_last_named_at(records: Seq<RecordView>, i: int)
    requires
        0 <= i < records.len(),
        is_last_of_its_name(records, i),
    ensures
        last_named(records, records[i].name) == Some(records[i]),
    decreases records.len(),
{
    if i < records.len() - 1 {
        let front = records.drop_last();
        assert(records[records.len() - 1].name != records[i].name);
        assert forall|j: int| i < j < front.len() implies (#[trigger] front[j]).name
            != front[i].name by {
            assert(front[j] == records[j]);
        }
        lemma_last_named_at(front, i);
    }
}

proof fn lemma_last_text_at(records: Seq<RecordView>, i: int, text: Seq<char>)
    requires
        0 <= i < records.len(),
        records[i].value == ValueView::Text(text),
        forall|j: int|
            i < j < records.len() && (#[trigger] records[j]).name == records[i].name
                ==> records[j].value is Number,
    ensures
        last_text(records, records[i].name) == Some(text),
    decreases records.len(),
{
    if i < records.len() - 1 {
        let front = records.drop_last();
        assert(records[records.len() - 1] == records.last());
        assert forall|j: int|
            i < j < front.len() && (#[trigger] front[j]).name == front[i].name implies front[j].value
            is Number by {
            assert(front[j] == records[j]);
        }
        lemma_last_text_at(front, i, text);
    }
}

proof fn lemma_no_text(records: Seq<RecordView>, name: Seq<char>)
    requires
        forall|j: int|
            0 <= j < records.len() && (#[trigger] records[j]).name == name ==> records[j].value
                is Number,
    ensures
        last_text(records, name) is None,
    decreases records.len(),
{
    if records.len() > 0 {
        let front = records.drop_last();
        assert(records[records.len() - 1] == records.last());
        assert forall|j: int|
            0 <= j < front.len() && (#[trigger] front[j]).name == name implies front[j].value
            is Number by {
            assert(front[j] == records[j]);
        }
        lemma_no_text(front, name);
    }
}

proof fn lemma_last_energy_at(records: Seq<RecordView>, i: int)
    requires
        0 <= i < records.len(),
        tells_energy(records[i]),
        forall|j: int| i < j < records.len() ==> !tells_energy(#[trigger] records[j]),
    ensures
        last_energy(records) == Some(records[i]),
    decreases records.len(),
{
    if i < records.len() - 1 {
        let front = records.drop_last();
        assert(!tells_energy(records[records.len() - 1]));
        assert forall|j: int| i < j < front.len() implies !tells_energy(#[trigger] front[j]) by {
            assert(front[j] == records[j]);
        }
        lemma_last_energy_at(front, i);
    }
}

proof fn lemma_no_energy(records: Seq<RecordView>)
    requires
        forall|j: int| 0 <= j < records.len() ==> !tells_energy(#[trigger] records[j]),
    ensures
        last_energy(records) is None,
    decreases records.len(),
{
    if records.len() > 0 {
        let front = records.drop_last();
        assert(!tells_energy(records[records.len() - 1]));
        assert forall|j: int| 0 <= j < front.len() implies !tells_energy(#[trigger] front[j]) by {
            assert(front[j] == records[j]);
        }
        lemma_no_energy(front);
    }
}

/// While online, each measurement is what the last record of its name says, and
/// nothing where that says nothing.
pub proof fn law_the_last_record_of_a_name_counts(snapshot: PvSnapshot, pack: PackView, i: int)
    requires
        snapshot.link == LinkStatus::Online,
        0 <= i < pack.records.len(),
        is_last_of_its_name(pack.records, i),
    ensures
        ({
            let record = pack.records[i];
            let after = snapshot.after_pack(pack);
            &&& record.name == "ac/l1/voltage"@ ==> after.voltage_mv == in_thousandths(record)
            &&& record.name == "ac/l1/current"@ ==> after.current_ma == in_thousandths(record)
            &&& record.name == "ac/total_power"@ ==> after.power_mw == in_thousandths(record)
            &&& record.name == "ac/frequency"@ ==> after.frequency_mhz == in_thousandths(record)
        }),
{
    lemma_last_named_at(pack.records, i);
}

/// While online, the temperature is what the last record of it says in hundredths
/// of a degree Celsius, where 16 bits hold that.
pub proof fn law_the_last_temperature_counts(
    snapshot: PvSnapshot,
    pack: PackView,
    i: int,
    centi: i64,
)
    requires
        snapshot.link == LinkStatus::Online,
        0 <= i < pack.records.len(),
        is_last_of_its_name(pack.records, i),
        pack.records[i].name == "device/temperature"@,
    ensures
        ({
            let record = pack.records[i];
            let after = snapshot.after_pack(pack);
            &&& record.unit != Some("Cel"@) ==> after.temperature_centi_c is None
            &&& record.value is Text ==> after.temperature_centi_c is None
            &&& record.unit == Some("Cel"@) ==> (record.value matches ValueView::Number(literal)
                ==> {
                &&& scaled_literal(literal, 2) is None ==> after.temperature_centi_c is None
                &&& scaled_literal(literal, 2) == Some(centi) ==> (if i16::MIN <= centi
                    <= i16::MAX {
                    after.temperature_centi_c matches Some(t) && t == centi
                } else {
                    after.temperature_centi_c is None
                })
            })
        }),
{
    lemma_last_named_at(pack.records, i);
}

/// While online, the inverter's own signals are what the last texts of their names
/// stand for.
pub proof fn law_the_last_signals_count(
    snapshot: PvSnapshot,
    pack: PackView,
    i: int,
    text: Seq<char>,
)
    requires
        snapshot.link == LinkStatus::Online,
        0 <= i < pack.records.len(),
        pack.records[i].value == ValueView::Text(text),
        forall|j: int|
            i < j < pack.records.len() && (#[trigger] pack.records[j]).name == pack.records[i].name
                ==> pack.records[j].value is Number,
    ensures
        pack.records[i].name == "device/status"@ ==> snapshot.after_pack(pack).device_status
            == DeviceStatus::named(text),
        pack.records[i].name == "device/grid_relay"@ ==> snapshot.after_pack(pack).grid_relay
            == GridRelay::named(text),
{
    lemma_last_text_at(pack.records, i, text);
}

/// A signal that no record gives as a text is absent.
pub proof fn law_signals_are_texts(snapshot: PvSnapshot, pack: PackView, name: Seq<char>)
    requires
        forall|j: int|
            0 <= j < pack.records.len() && (#[trigger] pack.records[j]).name == name
                ==> pack.records[j].value is Number,
    ensures
        name == "device/status"@ ==> snapshot.after_pack(pack).device_status is None,
        name == "device/grid_relay"@ ==> snapshot.after_pack(pack).grid_relay is None,
{
    lemma_no_text(pack.records, name);
}

/// The energy total is that of the last record that tells one, and it was taken at
/// that record's time, whatever the link and whatever the offset.
pub proof fn law_the_last_energy_record_counts(snapshot: PvSnapshot, pack: PackView, i: int)
    requires
        0 <= i < pack.records.len(),
        pack.records[i].name == "energy/total"@,
        in_thousandths(pack.records[i]) is Some,
        forall|j: int| i < j < pack.records.len() ==> !tells_energy(#[trigger] pack.records[j]),
        i64::MIN <= pack.base_time + pack.records[i].time_offset <= i64::MAX,
    ensures
        snapshot.after_pack(pack).energy_total_mwh == in_thousandths(pack.records[i]),
        snapshot.after_pack(pack).energy_end_ts matches Some(end) && end == pack.base_time
            + pack.records[i].time_offset,
{
    lemma_last_energy_at(pack.records, i);
}

/// A pack that tells no energy keeps the total and its time, and no pack touches
/// the link or the rating.
pub proof fn law_packs_keep_the_rest(snapshot: PvSnapshot, pack: PackView)
    ensures
        (forall|j: int| 0 <= j < pack.records.len() ==> !tells_energy(#[trigger] pack.records[j]))
            ==> snapshot.after_pack(pack).energy_total_mwh == snapshot.energy_total_mwh
            && snapshot.after_pack(pack).energy_end_ts == snapshot.energy_end_ts,
        snapshot.after_pack(pack).link == snapshot.link,
        snapshot.after_pack(pack).max_power_w == snapshot.max_power_w,
{
    if forall|j: int| 0 <= j < pack.records.len() ==> !tells_energy(#[trigger] pack.records[j]) {
        lemma_no_energy(pack.records);
    }
}

/// Whether a snapshot shows no instantaneous reading.
pub open spec fn shows_no_reading(snapshot: PvSnapshot) -> bool {
    &&& snapshot.voltage_mv is None
    &&& snapshot.current_ma is None
    &&& snapshot.power_mw is None
    &&& snapshot.frequency_mhz is None
    &&& snapshot.temperature_centi_c is None
    &&& snapshot.device_status is None
    &&& snapshot.grid_relay is None
}

/// A pack shows no reading while the link is not online.
pub proof fn law_packs_show_online_only(snapshot: PvSnapshot, pack: PackView)
    requires
        snapshot.link != LinkStatus::Online,
    ensures
        shows_no_reading(snapshot.after_pack(pack)),
{
}

/// A status sets the link. Online keeps every reading, any other blanks them all;
/// the energy total, its time and the rating stay in any case.
pub proof fn law_statuses_set_the_link(snapshot: PvSnapshot, status: LinkStatus)
    ensures
        snapshot.after_status(status).link == status,
        status == LinkStatus::Online ==> {
            let after = snapshot.after_status(status);
            &&& after.voltage_mv == snapshot.voltage_mv
            &&& after.current_ma == snapshot.current_ma
            &&& after.power_mw == snapshot.power_mw
            &&& after.frequency_mhz == snapshot.frequency_mhz
            &&& after.temperature_centi_c == snapshot.temperature_centi_c
            &&& after.device_status == snapshot.device_status
            &&& after.grid_relay == snapshot.grid_relay
        },
        status != LinkStatus::Online ==> shows_no_reading(snapshot.after_status(status)),
        snapshot.after_status(status).energy_total_mwh == snapshot.energy_total_mwh,
        snapshot.after_status(status).energy_end_ts == snapshot.energy_end_ts,
        snapshot.after_status(status).max_power_w == snapshot.max_power_w,
{
}

/// Before any message nothing is known.
pub proof fn law_nothing_is_known_at_first()
    ensures
        StateView::blank().info is None,
        shows_no_reading(StateView::blank().snapshot),
        StateView::blank().snapshot == PvSnapshot::blank(),
        PvSnapshot::blank().link == LinkStatus::Unknown,
        PvSnapshot::blank().energy_total_mwh is None,
        PvSnapshot::blank().energy_end_ts is None,
        PvSnapshot::blank().max_power_w is None,
{
}

/// An identity replaces the one before it, and of the snapshot it sets the rating
/// and nothing else; packs and statuses keep it.
pub proof fn law_messages_go_where_they_belong(
    state: StateView,
    info: InverterInfoView,
    pack: PackView,
    status: LinkStatus,
)
    ensures
        state.after(DomainMsgView::Info(info)).info == Some(info),
        state.after(DomainMsgView::Info(info)).snapshot.max_power_w == info.max_power_w,
        ({
            let before = state.snapshot;
            let after = state.after(DomainMsgView::Info(info)).snapshot;
            &&& after.link == before.link
            &&& after.voltage_mv == before.voltage_mv
            &&& after.current_ma == before.current_ma
            &&& after.power_mw == before.power_mw
            &&& after.frequency_mhz == before.frequency_mhz
            &&& after.energy_total_mwh == before.energy_total_mwh
            &&& after.energy_end_ts == before.energy_end_ts
            &&& after.temperature_centi_c == before.temperature_centi_c
            &&& after.device_status == before.device_status
            &&& after.grid_relay == before.grid_relay
        }),
        state.after(DomainMsgView::Pack(pack)).info == state.info,
        state.after(DomainMsgView::Pack(pack)).snapshot == state.snapshot.after_pack(pack),
        state.after(DomainMsgView::Status(status)).info == state.info,
        state.after(DomainMsgView::Status(status)).snapshot == state.snapshot.after_status(status),
{
}

/// A history is folded one message at a time.
pub proof fn law_histories_grow_by_messages(
    state: StateView,
    msgs: Seq<DomainMsgView>,
    msg: DomainMsgView,
)
    ensures
        state.after_all(Seq::empty()) == state,
        state.after_all(msgs.push(msg)) == state.after_all(msgs).after(msg),
{
    assert(msgs.push(msg).drop_last() == msgs);
}

/// The identity is the document's, field for field, and the rating is given exactly
/// where the document gives ratings: all of them together, whatever else it says.
pub proof fn law_identities_are_the_documents(raw: RawInfoView)
    ensures
        identity(raw).serial == raw.serial,
        identity(raw).name == raw.name,
        identity(raw).device_model == raw.device_model,
        identity(raw).lines == raw.lines,
        identity(raw).strings == raw.strings,
        identity(raw).max_power_w is Some <==> raw.max_power_watts is Some,
        raw.max_power_watts matches Some(ratings) ==> rating_sum(ratings) <= i64::MAX ==> (
        identity(raw).max_power_w matches Some(w) && w == rating_sum(ratings)),
{
    if let Some(ratings) = raw.max_power_watts {
        if rating_sum(ratings) <= i64::MAX {
            law_ratings_add_up(ratings);
        }
    }
}

/// A schema is told of exactly where it is given and not the first.
pub proof fn law_later_schemas_are_told(raw: RawInfoView, schema: u32)
    ensures
        other_schema(raw) == Some(schema) <==> raw.schema == Some(schema) && schema != 1,
{
}

/// Whether a record is read as a number and its literal cannot be scaled.
pub open spec fn is_unreadable(record: RecordView, literal: Seq<char>) -> bool {
    &&& record.value == ValueView::Number(literal)
    &&& {
        ||| {
            &&& record.name == "ac/total_power"@ || record.name == "ac/l1/voltage"@ || record.name
                == "ac/l1/current"@ || record.name == "ac/frequency"@ || record.name
                == "energy/total"@
            &&& counts_in_thousandths(record.unit)
            &&& scaled_literal(literal, 3) is None
        }
        ||| {
            &&& record.name == "device/temperature"@
            &&& record.unit == Some("Cel"@)
            &&& scaled_literal(literal, 2) is None
        }
    }
}

/// What is told of a pack is its unreadable numbers, each with its name, in order.
pub proof fn law_unreadable_numbers_are_told(records: Seq<RecordView>, record: RecordView)
    ensures
        bad_literals(Seq::empty()) == Seq::<(Seq<char>, Seq<char>)>::empty(),
        (forall|literal: Seq<char>| !#[trigger] is_unreadable(record, literal)) ==> bad_literals(
            records.push(record),
        ) == bad_literals(records),
        forall|literal: Seq<char>| #[trigger]
            is_unreadable(record, literal) ==> bad_literals(records.push(record)) == bad_literals(
                records,
            ).push((record.name, literal)),
{
    reveal_strlit("ac/total_power");
    reveal_strlit("ac/l1/voltage");
    reveal_strlit("ac/l1/current");
    reveal_strlit("ac/frequency");
    reveal_strlit("energy/total");
    reveal_strlit("device/temperature");
    assert("ac/total_power"@.len() == 14 && "ac/l1/voltage"@.len() == 13);
    assert("ac/l1/current"@.len() == 13 && "ac/frequency"@.len() == 12);
    assert("energy/total"@.len() == 12 && "device/temperature"@.len() == 18);
    assert(records.push(record).drop_last() == records);
    if let Some(literal) = bad_literal(record) {
        assert(record.value == ValueView::Number(literal));
        assert(is_unreadable(record, literal));
    }
}

/// The times of a pack are in range exactly where each energy total that is told
/// has a time that 64 bits hold.
pub proof fn law_only_energy_times_matter(pack: PackView)
    ensures
        energy_times_fit(pack) <==> forall|i: int|
            0 <= i < pack.records.len() && tells_energy(#[trigger] pack.records[i]) ==> i64::MIN
                <= pack.base_time + pack.records[i].time_offset <= i64::MAX,
        DomainMsgView::Pack(pack).times_fit() <==> energy_times_fit(pack),
{
    assert forall|i: int| 0 <= i < pack.records.len() implies tells_energy(pack.records[i]) == (
    (#[trigger] pack.records[i]).name == "energy/total"@ && crate::domain::milli_reading(
        pack.records[i],
    ) is Some) by {}
}

/// The source is unavailable while the publisher is gone, and online while the
/// inverter reports a fault or that it is off, or its relay is faulty. Otherwise it
/// stands by while the inverter sleeps, and online while the relay is not known to
/// be closed but spoken of. Otherwise it is active while online.
pub proof fn law_the_source_status_is_decided(snapshot: PvSnapshot)
    ensures
        ({
            let online = snapshot.link == LinkStatus::Online;
            let broken = snapshot.device_status == Some(DeviceStatus::Fault)
                || snapshot.device_status == Some(DeviceStatus::Off) || snapshot.grid_relay == Some(
                GridRelay::Fault,
            );
            let apart = snapshot.grid_relay == Some(GridRelay::Open) || snapshot.grid_relay == Some(
                GridRelay::Unknown,
            );
            &&& snapshot.status() == SourceStatus::Unspecified <==> snapshot.link
                == LinkStatus::Unknown
            &&& snapshot.status() == SourceStatus::Unavailable <==> snapshot.link
                == LinkStatus::Offline || (online && broken)
            &&& snapshot.status() == SourceStatus::Standby <==> snapshot.link == LinkStatus::Asleep
                || (online && !broken && apart)
            &&& snapshot.status() == SourceStatus::Active <==> online && !broken && !apart
        }),
{
}

/// A status is one of three words, with blanks around it or without.
pub proof fn law_statuses_are_words(front: Seq<char>, word: Seq<char>, back: Seq<char>)
    requires
        all_blank(front),
        all_blank(back),
        word.len() > 0 ==> !is_blank(word[0]) && !is_blank(word.last()),
    ensures
        LinkStatus::named(front + word + back) == Some(LinkStatus::Online) <==> word == "online"@,
        LinkStatus::named(front + word + back) == Some(LinkStatus::Asleep) <==> word == "asleep"@,
        LinkStatus::named(front + word + back) == Some(LinkStatus::Offline) <==> word
            == "offline"@,
        LinkStatus::named(front + word + back) != Some(LinkStatus::Unknown),
{
    law_trimming_takes_the_blanks(front, word, back);
    reveal_strlit("online");
    reveal_strlit("asleep");
    reveal_strlit("offline");
    assert("online"@[0] != "asleep"@[0]);
    assert("online"@.len() == 6 && "asleep"@.len() == 6 && "offline"@.len() == 7);
}

/// The inverter's signals are words, and any other text stands for nothing.
pub proof fn law_signals_are_words(text: Seq<char>)
    ensures
        DeviceStatus::named(text) == Some(DeviceStatus::Okay) <==> text == "ok"@,
        DeviceStatus::named(text) == Some(DeviceStatus::Warning) <==> text == "warning"@,
        DeviceStatus::named(text) == Some(DeviceStatus::Fault) <==> text == "fault"@,
        DeviceStatus::named(text) == Some(DeviceStatus::Off) <==> text == "off"@,
        DeviceStatus::named(text) == Some(DeviceStatus::Unknown) <==> text == "unknown"@,
        GridRelay::named(text) == Some(GridRelay::Closed) <==> text == "closed"@,
        GridRelay::named(text) == Some(GridRelay::Open) <==> text == "open"@,
        GridRelay::named(text) == Some(GridRelay::Fault) <==> text == "fault"@,
        GridRelay::named(text) == Some(GridRelay::Unknown) <==> text == "unknown"@,
{
    reveal_strlit("ok");
    reveal_strlit("warning");
    reveal_strlit("fault");
    reveal_strlit("off");
    reveal_strlit("unknown");
    reveal_strlit("closed");
    reveal_strlit("open");
    assert("warning"@[0] != "unknown"@[0]);
    assert("ok"@.len() == 2 && "warning"@.len() == 7 && "fault"@.len() == 5 && "off"@.len() == 3);
    assert("unknown"@.len() == 7 && "closed"@.len() == 6 && "open"@.len() == 4);
}

/// What each signal of its own says of a source that is online: `unknown` health
/// abstains, an `unknown` relay does not feed.
pub proof fn law_signals_have_their_votes(device: DeviceStatus, relay: GridRelay)
    ensures
        device.vote() is None <==> device == DeviceStatus::Unknown,
        device.vote() == Some(SourceStatus::Active) <==> device == DeviceStatus::Okay || device
            == DeviceStatus::Warning,
        device.vote() == Some(SourceStatus::Unavailable) <==> device == DeviceStatus::Fault
            || device == DeviceStatus::Off,
        relay.vote() == SourceStatus::Active <==> relay == GridRelay::Closed,
        relay.vote() == SourceStatus::Unavailable <==> relay == GridRelay::Fault,
        relay.vote() == SourceStatus::Standby <==> relay == GridRelay::Open || relay
            == GridRelay::Unknown,
{
}

} // verus!
