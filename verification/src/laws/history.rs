//! What every history of messages leaves behind.
use vstd::prelude::*;

use crate::domain::{
    bad_literal, last_energy, last_named, last_text, milli_of, milli_reading, temperature_reading,
    total_rating, DomainMsgView, LinkStatus, PvSnapshot, SourceStatus, StateView,
};
use crate::laws::scaling::law_scaled_values_have_negatives;
use crate::senml::{PackView, RecordView, ValueView};

verus! {

/// The snapshot after a history that starts with nothing.
pub open spec fn snapshot_after(msgs: Seq<DomainMsgView>) -> PvSnapshot {
    StateView::blank().after_all(msgs).snapshot
}

/// The last status of a history.
pub open spec fn last_status(msgs: Seq<DomainMsgView>) -> LinkStatus
    decreases msgs.len(),
{
    if msgs.len() == 0 {
        LinkStatus::Unknown
    } else {
        match msgs.last() {
            DomainMsgView::Status(status) => status,
            _ => last_status(msgs.drop_last()),
        }
    }
}

/// The rating of the last identity of a history.
pub open spec fn last_rating(msgs: Seq<DomainMsgView>) -> Option<i64>
    decreases msgs.len(),
{
    if msgs.len() == 0 {
        None
    } else {
        match msgs.last() {
            DomainMsgView::Info(info) => info.max_power_w,
            _ => last_rating(msgs.drop_last()),
        }
    }
}

/// The last energy total of a history that could be read, with its time.
pub open spec fn last_total(msgs: Seq<DomainMsgView>) -> Option<(i64, i64)>
    decreases msgs.len(),
{
    if msgs.len() == 0 {
        None
    } else {
        match msgs.last() {
            DomainMsgView::Pack(pack) => match last_energy(pack.records) {
                Some(record) => Some(
                    (milli_reading(record)->0, (pack.base_time + record.time_offset) as i64),
                ),
                None => last_total(msgs.drop_last()),
            },
            _ => last_total(msgs.drop_last()),
        }
    }
}

/// What the last energy record of a pack holds can be scaled.
proof fn lemma_last_energy_reads(records: Seq<RecordView>)
    ensures
        last_energy(records) matches Some(record) ==> milli_reading(record) is Some,
    decreases records.len(),
{
    if records.len() > 0 {
        lemma_last_energy_reads(records.drop_last());
    }
}

/// The link is what the last status said.
pub proof fn law_link_is_the_last_status(msgs: Seq<DomainMsgView>)
    ensures
        snapshot_after(msgs).link == last_status(msgs),
    decreases msgs.len(),
{
    if msgs.len() > 0 {
        law_link_is_the_last_status(msgs.drop_last());
    }
}

/// Whatever was received in whatever order: while the link is not online, no
/// instantaneous reading shows.
pub proof fn law_readings_show_online_only(msgs: Seq<DomainMsgView>)
    ensures
        last_status(msgs) != LinkStatus::Online ==> snapshot_after(msgs) == snapshot_after(
            msgs,
        ).without_readings(),
    decreases msgs.len(),
{
    law_link_is_the_last_status(msgs);
    if msgs.len() > 0 {
        law_readings_show_online_only(msgs.drop_last());
        law_link_is_the_last_status(msgs.drop_last());
    }
}

/// A pack that is replayed while the inverter is asleep, or the publisher gone,
/// does not bring its readings back.
pub proof fn law_replayed_packs_stay_masked(snapshot: PvSnapshot, pack: PackView)
    requires
        snapshot.link != LinkStatus::Online,
    ensures
        snapshot.after_pack(pack) == snapshot.after_pack(pack).without_readings(),
        snapshot.after_pack(pack).link == snapshot.link,
{
}

/// Coming back online shows nothing old: readings stay absent until a pack
/// comes.
pub proof fn law_waking_shows_nothing_old(msgs: Seq<DomainMsgView>)
    requires
        last_status(msgs) != LinkStatus::Online,
    ensures
        snapshot_after(msgs).after_status(LinkStatus::Online) == (PvSnapshot {
            link: LinkStatus::Online,
            ..snapshot_after(msgs).without_readings()
        }),
{
    law_readings_show_online_only(msgs);
}

/// The energy total and its time are those of the last pack that held a total,
/// whatever came after it.
pub proof fn law_energy_is_the_last_total(msgs: Seq<DomainMsgView>)
    ensures
        match last_total(msgs) {
            Some((mwh, end)) => snapshot_after(msgs).energy_total_mwh == Some(mwh)
                && snapshot_after(msgs).energy_end_ts == Some(end),
            None => snapshot_after(msgs).energy_total_mwh is None && snapshot_after(
                msgs,
            ).energy_end_ts is None,
        },
    decreases msgs.len(),
{
    if msgs.len() > 0 {
        law_energy_is_the_last_total(msgs.drop_last());
        if let DomainMsgView::Pack(pack) = msgs.last() {
            lemma_last_energy_reads(pack.records);
        }
    }
}

/// A status keeps the energy total, its time and the rating, whichever it is.
pub proof fn law_status_keeps_energy_and_rating(snapshot: PvSnapshot, status: LinkStatus)
    ensures
        snapshot.after_status(status).energy_total_mwh == snapshot.energy_total_mwh,
        snapshot.after_status(status).energy_end_ts == snapshot.energy_end_ts,
        snapshot.after_status(status).max_power_w == snapshot.max_power_w,
{
}

/// An energy total that is known stays known.
pub proof fn law_energy_is_never_lost(state: StateView, msgs: Seq<DomainMsgView>)
    requires
        state.snapshot.energy_total_mwh is Some,
    ensures
        state.after_all(msgs).snapshot.energy_total_mwh is Some,
    decreases msgs.len(),
{
    if msgs.len() > 0 {
        law_energy_is_never_lost(state, msgs.drop_last());
        if let DomainMsgView::Pack(pack) = msgs.last() {
            lemma_last_energy_reads(pack.records);
        }
    }
}

/// The rating is that of the last identity: neither packs nor statuses touch it.
pub proof fn law_rating_is_the_last_identitys(msgs: Seq<DomainMsgView>)
    ensures
        snapshot_after(msgs).max_power_w == last_rating(msgs),
    decreases msgs.len(),
{
    if msgs.len() > 0 {
        law_rating_is_the_last_identitys(msgs.drop_last());
    }
}

/// A message that is received again changes nothing.
pub proof fn law_replay_changes_nothing(state: StateView, msg: DomainMsgView)
    ensures
        state.after(msg).after(msg) == state.after(msg),
{
}

/// A history may be folded in two parts.
pub proof fn law_histories_compose(
    state: StateView,
    first: Seq<DomainMsgView>,
    second: Seq<DomainMsgView>,
)
    ensures
        state.after_all(first + second) == state.after_all(first).after_all(second),
    decreases second.len(),
{
    if second.len() == 0 {
        assert(first + second == first);
    } else {
        law_histories_compose(state, first, second.drop_last());
        assert((first + second).drop_last() == first + second.drop_last());
        assert((first + second).last() == second.last());
    }
}

/// Retained messages replay after every connect: one of each topic, in any
/// order, changes nothing where it is what the state came from last.
pub proof fn law_reconnect_changes_nothing(
    state: StateView,
    info: DomainMsgView,
    pack: DomainMsgView,
    status: DomainMsgView,
)
    requires
        info is Info,
        pack is Pack,
        status is Status,
    ensures
        ({
            let latest = state.after(info).after(status).after(pack);
            &&& latest.after(info).after(status).after(pack) == latest
            &&& latest.after(info).after(pack).after(status) == latest
            &&& latest.after(pack).after(info).after(status) == latest
            &&& latest.after(pack).after(status).after(info) == latest
            &&& latest.after(status).after(info).after(pack) == latest
            &&& latest.after(status).after(pack).after(info) == latest
        }),
{
}

proof fn lemma_absent_name(records: Seq<RecordView>, name: Seq<char>)
    requires
        forall|i: int| 0 <= i < records.len() ==> (#[trigger] records[i]).name != name,
    ensures
        last_named(records, name) is None,
        last_text(records, name) is None,
    decreases records.len(),
{
    if records.len() > 0 {
        assert(records.last().name != name);
        assert forall|i: int| 0 <= i < records.drop_last().len() implies (
        #[trigger] records.drop_last()[i]).name != name by {
            assert(records.drop_last()[i] == records[i]);
        }
        lemma_absent_name(records.drop_last(), name);
    }
}

/// A reading whose record is not in the pack becomes absent.
pub proof fn law_absent_records_read_as_none(
    snapshot: PvSnapshot,
    pack: PackView,
    name: Seq<char>,
)
    requires
        forall|i: int| 0 <= i < pack.records.len() ==> (#[trigger] pack.records[i]).name != name,
    ensures
        name == "ac/total_power"@ ==> snapshot.after_pack(pack).power_mw is None,
        name == "ac/l1/voltage"@ ==> snapshot.after_pack(pack).voltage_mv is None,
        name == "ac/l1/current"@ ==> snapshot.after_pack(pack).current_ma is None,
        name == "ac/frequency"@ ==> snapshot.after_pack(pack).frequency_mhz is None,
        name == "device/temperature"@ ==> snapshot.after_pack(pack).temperature_centi_c is None,
        name == "device/status"@ ==> snapshot.after_pack(pack).device_status is None,
        name == "device/grid_relay"@ ==> snapshot.after_pack(pack).grid_relay is None,
{
    lemma_absent_name(pack.records, name);
}

/// The records that a snapshot is made from.
pub open spec fn is_mapped(name: Seq<char>) -> bool {
    ||| name == "ac/total_power"@
    ||| name == "ac/l1/voltage"@
    ||| name == "ac/l1/current"@
    ||| name == "ac/frequency"@
    ||| name == "energy/total"@
    ||| name == "device/temperature"@
    ||| name == "device/status"@
    ||| name == "device/grid_relay"@
}

pub open spec fn mapped_records(records: Seq<RecordView>) -> Seq<RecordView>
    decreases records.len(),
{
    if records.len() == 0 {
        records
    } else if is_mapped(records.last().name) {
        mapped_records(records.drop_last()).push(records.last())
    } else {
        mapped_records(records.drop_last())
    }
}

proof fn lemma_mapped(records: Seq<RecordView>, name: Seq<char>)
    requires
        is_mapped(name),
    ensures
        last_named(mapped_records(records), name) == last_named(records, name),
        last_text(mapped_records(records), name) == last_text(records, name),
        last_energy(mapped_records(records)) == last_energy(records),
    decreases records.len(),
{
    if records.len() > 0 {
        lemma_mapped(records.drop_last(), name);
        let kept = mapped_records(records.drop_last());
        assert(kept.push(records.last()).drop_last() == kept);
    }
}

/// Records that are not mapped do not matter.
pub proof fn law_other_records_are_ignored(snapshot: PvSnapshot, pack: PackView)
    ensures
        snapshot.after_pack(pack) == snapshot.after_pack(
            PackView { records: mapped_records(pack.records), ..pack },
        ),
{
    lemma_mapped(pack.records, "ac/total_power"@);
    lemma_mapped(pack.records, "ac/l1/voltage"@);
    lemma_mapped(pack.records, "ac/l1/current"@);
    lemma_mapped(pack.records, "ac/frequency"@);
    lemma_mapped(pack.records, "device/temperature"@);
    lemma_mapped(pack.records, "device/status"@);
    lemma_mapped(pack.records, "device/grid_relay"@);
}

/// A number with a unit that is not mapped is left alone, not scaled wrongly.
pub proof fn law_other_units_are_not_scaled(record: RecordView)
    requires
        record.unit matches Some(unit) ==> unit != "W"@ && unit != "V"@ && unit != "A"@ && unit
            != "Hz"@ && unit != "Wh"@,
    ensures
        milli_reading(record) is None,
{
}

/// A record that is told of as unreadable gives no reading.
pub proof fn law_bad_literals_give_no_reading(record: RecordView)
    requires
        bad_literal(record) is Some,
    ensures
        record.name == "device/temperature"@ ==> temperature_reading(record) is None,
        record.name != "device/temperature"@ ==> milli_reading(record) is None,
{
    reveal_strlit("ac/total_power");
    reveal_strlit("ac/l1/voltage");
    reveal_strlit("ac/l1/current");
    reveal_strlit("ac/frequency");
    reveal_strlit("energy/total");
    reveal_strlit("device/temperature");
    assert("ac/total_power"@.len() == 14 && "ac/l1/voltage"@.len() == 13);
    assert("ac/l1/current"@.len() == 13 && "ac/frequency"@.len() == 12);
    assert("energy/total"@.len() == 12 && "device/temperature"@.len() == 18);
}

/// Whether power and current can change their sign.
pub open spec fn has_negatives(snapshot: PvSnapshot) -> bool {
    snapshot.power_mw != Some(i64::MIN) && snapshot.current_ma != Some(i64::MIN)
}

proof fn lemma_readings_have_negatives(records: Seq<RecordView>, name: Seq<char>)
    ensures
        milli_of(records, name) != Some(i64::MIN),
{
    if let Some(record) = last_named(records, name) {
        if let ValueView::Number(literal) = record.value {
            law_scaled_values_have_negatives(literal, 3);
        }
    }
}

/// Power and current can always change their sign, as they do at the Matter
/// boundary.
pub proof fn law_power_and_current_have_negatives(msgs: Seq<DomainMsgView>)
    ensures
        has_negatives(snapshot_after(msgs)),
    decreases msgs.len(),
{
    if msgs.len() > 0 {
        law_power_and_current_have_negatives(msgs.drop_last());
        if let DomainMsgView::Pack(pack) = msgs.last() {
            lemma_readings_have_negatives(pack.records, "ac/total_power"@);
            lemma_readings_have_negatives(pack.records, "ac/l1/current"@);
        }
    }
}

/// Nothing is known of the source exactly while nothing is known of the link.
pub proof fn law_unspecified_is_an_unknown_link(snapshot: PvSnapshot)
    ensures
        snapshot.status() == SourceStatus::Unspecified <==> snapshot.link == LinkStatus::Unknown,
{
}

/// While online, the status is at least as severe as what each signal says, and
/// no more severe than the worst of them.
pub proof fn law_the_most_severe_signal_wins(snapshot: PvSnapshot)
    requires
        snapshot.link == LinkStatus::Online,
    ensures
        snapshot.status().severity() >= SourceStatus::Active.severity(),
        snapshot.device_status matches Some(device) ==> (device.vote() matches Some(vote)
            ==> snapshot.status().severity() >= vote.severity()),
        snapshot.grid_relay matches Some(relay) ==> snapshot.status().severity()
            >= relay.vote().severity(),
        ({
            ||| snapshot.status() == SourceStatus::Active
            ||| snapshot.device_status matches Some(device) && device.vote() == Some(
                snapshot.status(),
            )
            ||| snapshot.grid_relay matches Some(relay) && relay.vote() == snapshot.status()
        }),
{
}

/// While not online, the inverter's own signals do not matter.
pub proof fn law_signals_count_online_only(a: PvSnapshot, b: PvSnapshot)
    requires
        a.link == b.link,
        a.link != LinkStatus::Online,
    ensures
        a.status() == b.status(),
{
}

/// The ratings of the lines, added up without a bound.
pub open spec fn rating_sum(ratings: Seq<(Seq<char>, u32)>) -> nat
    decreases ratings.len(),
{
    if ratings.len() == 0 {
        0
    } else {
        rating_sum(ratings.drop_last()) + ratings.last().1 as nat
    }
}

/// The nameplate rating is the true sum of the lines' ratings, where that is in
/// the range of `i64`.
pub proof fn law_ratings_add_up(ratings: Seq<(Seq<char>, u32)>)
    requires
        rating_sum(ratings) <= i64::MAX,
    ensures
        total_rating(ratings) == rating_sum(ratings),
    decreases ratings.len(),
{
    if ratings.len() > 0 {
        law_ratings_add_up(ratings.drop_last());
    }
}

/// An identity that is known stays known.
pub proof fn law_identity_stays(state: StateView, msgs: Seq<DomainMsgView>)
    requires
        state.info is Some,
    ensures
        state.after_all(msgs).info is Some,
    decreases msgs.len(),
{
    if msgs.len() > 0 {
        law_identity_stays(state, msgs.drop_last());
    }
}

} // verus!
