//! What is reported, and when.
use vstd::prelude::*;

use crate::domain::{DomainMsgView, PvSnapshot, StateView};
use crate::laws::history::law_replay_changes_nothing;
use crate::matter::bridge::{
    live_attributes, remaining, report_of, Bridge, BridgeActionView, BridgeEventView, LiveAttribute,
    MIN_REPORT_SPACING_NS,
};
use crate::matter::eem::{epoch_seconds, exported_energy, MATTER_EPOCH_SECS};
use crate::matter::epm::exported;

verus! {

proof fn lemma_all_are_live(attribute: LiveAttribute)
    ensures
        live_attributes().contains(attribute),
{
    let live = live_attributes();
    assert(live[0] == LiveAttribute::Voltage);
    assert(live[1] == LiveAttribute::ActiveCurrent);
    assert(live[2] == LiveAttribute::ActivePower);
    assert(live[3] == LiveAttribute::Frequency);
    assert(live[4] == LiveAttribute::CumulativeEnergyExported);
    assert(live[5] == LiveAttribute::SourceStatus);
    assert(live[6] == LiveAttribute::Temperature);
}

/// A report names exactly the attributes whose values moved, each once.
pub proof fn law_reports_name_what_moved(
    prev: PvSnapshot,
    next: PvSnapshot,
    attribute: LiveAttribute,
)
    ensures
        report_of(prev, next).changed.contains(attribute) <==> attribute.moved(prev, next),
        report_of(prev, next).changed.no_duplicates(),
{
    broadcast use vstd::seq_lib::group_filter_ensures;

    let live = live_attributes();
    let moved = |a: LiveAttribute| a.moved(prev, next);
    lemma_all_are_live(attribute);
    let changed = live.filter(moved);
    if changed.contains(attribute) {
        let k = choose|k: int| 0 <= k < changed.len() && changed[k] == attribute;
        assert(moved(changed[k]));
    }
    if attribute.moved(prev, next) {
        let k = choose|k: int| 0 <= k < live.len() && live[k] == attribute;
        assert(moved(live[k]));
    }
    assert(live.no_duplicates());
    lemma_filter_keeps_distinct(live, moved);
}

/// The snapshot's value behind each attribute differs.
pub open spec fn differs(attribute: LiveAttribute, prev: PvSnapshot, next: PvSnapshot) -> bool {
    ||| attribute is Voltage && next.voltage_mv != prev.voltage_mv
    ||| attribute is ActiveCurrent && next.current_ma != prev.current_ma
    ||| attribute is ActivePower && next.power_mw != prev.power_mw
    ||| attribute is Frequency && next.frequency_mhz != prev.frequency_mhz
    ||| attribute is CumulativeEnergyExported && next.energy_total_mwh != prev.energy_total_mwh
    ||| attribute is SourceStatus && next.status() != prev.status()
    ||| attribute is Temperature && next.temperature_centi_c != prev.temperature_centi_c
}

/// Each attribute is reported exactly where its own value in the snapshot differs,
/// and the bounds exactly where the rating does.
pub proof fn law_reports_follow_the_snapshot(prev: PvSnapshot, next: PvSnapshot)
    ensures
        ({
            let changed = report_of(prev, next).changed;
            &&& changed.contains(LiveAttribute::Voltage) <==> next.voltage_mv != prev.voltage_mv
            &&& changed.contains(LiveAttribute::ActiveCurrent) <==> next.current_ma
                != prev.current_ma
            &&& changed.contains(LiveAttribute::ActivePower) <==> next.power_mw != prev.power_mw
            &&& changed.contains(LiveAttribute::Frequency) <==> next.frequency_mhz
                != prev.frequency_mhz
            &&& changed.contains(LiveAttribute::CumulativeEnergyExported)
                <==> next.energy_total_mwh != prev.energy_total_mwh
            &&& changed.contains(LiveAttribute::SourceStatus) <==> next.status() != prev.status()
            &&& changed.contains(LiveAttribute::Temperature) <==> next.temperature_centi_c
                != prev.temperature_centi_c
        }),
        report_of(prev, next).rating_changed <==> next.max_power_w != prev.max_power_w,
{
    law_reports_name_what_moved(prev, next, LiveAttribute::Voltage);
    law_reports_name_what_moved(prev, next, LiveAttribute::ActiveCurrent);
    law_reports_name_what_moved(prev, next, LiveAttribute::ActivePower);
    law_reports_name_what_moved(prev, next, LiveAttribute::Frequency);
    law_reports_name_what_moved(prev, next, LiveAttribute::CumulativeEnergyExported);
    law_reports_name_what_moved(prev, next, LiveAttribute::SourceStatus);
    law_reports_name_what_moved(prev, next, LiveAttribute::Temperature);
}

/// What is compared for each attribute is its own value and no other.
pub proof fn law_attributes_move_with_their_values(
    attribute: LiveAttribute,
    prev: PvSnapshot,
    next: PvSnapshot,
)
    ensures
        attribute.moved(prev, next) <==> differs(attribute, prev, next),
{
}

/// The place of an attribute among those of a report.
pub open spec fn rank(attribute: LiveAttribute) -> int {
    match attribute {
        LiveAttribute::Voltage => 0,
        LiveAttribute::ActiveCurrent => 1,
        LiveAttribute::ActivePower => 2,
        LiveAttribute::Frequency => 3,
        LiveAttribute::CumulativeEnergyExported => 4,
        LiveAttribute::SourceStatus => 5,
        LiveAttribute::Temperature => 6,
    }
}

proof fn lemma_filter_keeps_order(s: Seq<LiveAttribute>, keep: spec_fn(LiveAttribute) -> bool)
    requires
        forall|i: int, j: int|
            0 <= i < j < s.len() ==> rank(#[trigger] s[i]) < rank(#[trigger] s[j]),
    ensures
        forall|i: int, j: int|
            0 <= i < j < s.filter(keep).len() ==> rank(#[trigger] s.filter(keep)[i]) < rank(
                #[trigger] s.filter(keep)[j],
            ),
    decreases s.len(),
{
    reveal(Seq::filter);
    if s.len() > 0 {
        let front = s.drop_last();
        assert forall|i: int, j: int| 0 <= i < j < front.len() implies rank(#[trigger] front[i])
            < rank(#[trigger] front[j]) by {
            assert(front[i] == s[i] && front[j] == s[j]);
        }
        lemma_filter_keeps_order(front, keep);
        let kept = front.filter(keep);
        assert forall|i: int| 0 <= i < kept.len() implies rank(#[trigger] kept[i]) < rank(s.last()) by {
            assert(kept.contains(kept[i]));
            front.lemma_filter_contains_rev(keep, kept[i]);
            let k = choose|k: int| 0 <= k < front.len() && front[k] == kept[i];
            assert(s[k] == kept[i]);
            assert(rank(s[k]) < rank(s[s.len() - 1]));
        }
    }
}

/// The attributes of a report keep their order.
pub proof fn law_reports_keep_their_order(prev: PvSnapshot, next: PvSnapshot, i: int, j: int)
    requires
        0 <= i < j < report_of(prev, next).changed.len(),
    ensures
        rank(report_of(prev, next).changed[i]) < rank(report_of(prev, next).changed[j]),
{
    let live = live_attributes();
    let moved = |a: LiveAttribute| a.moved(prev, next);
    assert forall|i: int, j: int| 0 <= i < j < live.len() implies rank(#[trigger] live[i]) < rank(
        #[trigger] live[j],
    ) by {}
    lemma_filter_keeps_order(live, moved);
}

proof fn lemma_filter_keeps_distinct<A>(s: Seq<A>, keep: spec_fn(A) -> bool)
    requires
        s.no_duplicates(),
    ensures
        s.filter(keep).no_duplicates(),
    decreases s.len(),
{
    reveal(Seq::filter);
    if s.len() > 0 {
        let front = s.drop_last();
        lemma_filter_keeps_distinct(front, keep);
        let kept = front.filter(keep);
        assert forall|i: int| 0 <= i < kept.len() implies kept[i] != s.last() by {
            assert(kept.contains(kept[i]));
            front.lemma_filter_contains_rev(keep, kept[i]);
            let k = choose|k: int| 0 <= k < front.len() && front[k] == kept[i];
            assert(s[k] == kept[i]);
        }
    }
}

/// An attribute that is not reported reads as it did before.
pub proof fn law_what_is_not_reported_reads_the_same(prev: PvSnapshot, next: PvSnapshot)
    ensures
        !LiveAttribute::Voltage.moved(prev, next) ==> next.voltage_mv == prev.voltage_mv,
        !LiveAttribute::Frequency.moved(prev, next) ==> next.frequency_mhz == prev.frequency_mhz,
        !LiveAttribute::ActivePower.moved(prev, next) ==> exported(next.power_mw) == exported(
            prev.power_mw,
        ),
        !LiveAttribute::ActiveCurrent.moved(prev, next) ==> exported(next.current_ma) == exported(
            prev.current_ma,
        ),
        !LiveAttribute::Temperature.moved(prev, next) ==> next.temperature_centi_c
            == prev.temperature_centi_c,
        !LiveAttribute::SourceStatus.moved(prev, next) ==> next.status() == prev.status(),
        !LiveAttribute::CumulativeEnergyExported.moved(prev, next) ==> (exported_energy(next)
            is Some <==> exported_energy(prev) is Some) && (exported_energy(next) is Some
            ==> exported_energy(next)->0.energy == exported_energy(prev)->0.energy),
{
}

/// An event goes out exactly where the energy total moved to one that is known,
/// always with its attribute, and it carries what the attribute then reads as.
pub proof fn law_events_carry_the_new_total(prev: PvSnapshot, next: PvSnapshot)
    ensures
        report_of(prev, next).event is Some <==> next.energy_total_mwh is Some
            && next.energy_total_mwh != prev.energy_total_mwh,
        report_of(prev, next).event is Some ==> report_of(prev, next).event == exported_energy(
            next,
        ) && report_of(prev, next).changed.contains(LiveAttribute::CumulativeEnergyExported),
{
    broadcast use vstd::seq_lib::group_filter_ensures;

    let moved = |a: LiveAttribute| a.moved(prev, next);
    assert(live_attributes()[4] == LiveAttribute::CumulativeEnergyExported);
    if report_of(prev, next).event is Some {
        assert(moved(live_attributes()[4]));
        assert(live_attributes().filter(moved).contains(live_attributes()[4]));
    }
}

/// The counter is the snapshot's total, known exactly where that is, with the time
/// of the snapshot where 32 bits hold it since the start of the year 2000.
pub proof fn law_the_counter_is_the_snapshots(snapshot: PvSnapshot)
    ensures
        exported_energy(snapshot) is Some <==> snapshot.energy_total_mwh is Some,
        exported_energy(snapshot) matches Some(measurement) ==> {
            &&& Some(measurement.energy) == snapshot.energy_total_mwh
            &&& snapshot.energy_end_ts is None ==> measurement.end_timestamp is None
            &&& snapshot.energy_end_ts matches Some(end) ==> {
                let since = end - 946_684_800;
                if 0 <= since <= u32::MAX {
                    measurement.end_timestamp matches Some(t) && t == since
                } else {
                    measurement.end_timestamp is None
                }
            }
        },
{
}

/// A new time of an unchanged total is no news.
pub proof fn law_a_new_time_alone_is_no_news(prev: PvSnapshot, end: Option<i64>)
    ensures
        ({
            let report = report_of(prev, PvSnapshot { energy_end_ts: end, ..prev });
            report.changed.len() == 0 && report.event is None && !report.rating_changed
        }),
{
    broadcast use vstd::seq_lib::group_filter_ensures;

    let next = PvSnapshot { energy_end_ts: end, ..prev };
    let moved = |a: LiveAttribute| a.moved(prev, next);
    let changed = live_attributes().filter(moved);
    if changed.len() > 0 {
        assert(moved(changed[0]));
        assert(changed[0].moved(prev, next));
    }
}

/// A message that is received again is not reported.
pub proof fn law_replays_are_not_reported(state: StateView, msg: DomainMsgView, bridge: Bridge)
    requires
        bridge.prev == state.after(msg).snapshot,
        bridge.pending == Some(state.after(msg).after(msg).snapshot),
    ensures
        bridge.action(BridgeEventView::Drained { queued: Seq::empty() }) is Receive,
{
    law_replay_changes_nothing(state, msg);
}

/// A snapshot that comes alone is published exactly where it differs from what was
/// published last, whenever that was; from then on it is what was published last.
pub proof fn law_a_snapshot_alone_is_published(bridge: Bridge, snapshot: PvSnapshot)
    requires
        bridge.pending == Some(snapshot),
    ensures
        ({
            let drained = BridgeEventView::Drained { queued: Seq::empty() };
            &&& bridge.after(drained).prev == snapshot
            &&& bridge.after(drained).pending is None
            &&& bridge.after(drained).last_report == bridge.last_report
            &&& bridge.action(drained) is Receive <==> snapshot == bridge.prev
            &&& bridge.action(drained) is Publish <==> snapshot != bridge.prev
            &&& bridge.action(drained) matches BridgeActionView::Publish { state, report }
                ==> state == snapshot && report == report_of(bridge.prev, snapshot)
        }),
{
}

/// Of snapshots that have queued up, the last is published exactly where it differs
/// from what was published last, whatever was waiting and whenever that was.
pub proof fn law_the_last_of_a_queue_is_published(bridge: Bridge, queued: Seq<PvSnapshot>)
    requires
        queued.len() > 0,
    ensures
        ({
            let drained = BridgeEventView::Drained { queued };
            let newest = queued[queued.len() - 1];
            &&& bridge.after(drained).prev == newest
            &&& bridge.after(drained).pending is None
            &&& bridge.after(drained).last_report == bridge.last_report
            &&& bridge.action(drained) is Receive <==> newest == bridge.prev
            &&& bridge.action(drained) is Publish <==> newest != bridge.prev
            &&& bridge.action(drained) matches BridgeActionView::Publish { state, report }
                ==> state == newest && report == report_of(bridge.prev, newest)
        }),
{
}

/// With nothing waiting and nothing queued, nothing is published.
pub proof fn law_nothing_comes_of_nothing(bridge: Bridge)
    requires
        bridge.pending is None,
    ensures
        bridge.action(BridgeEventView::Drained { queued: Seq::empty() }) is Receive,
        bridge.after(BridgeEventView::Drained { queued: Seq::empty() }) == bridge,
{
}

/// A snapshot that is received is kept until the queue has been looked at; what
/// was published and when stays as it is.
pub proof fn law_received_snapshots_are_kept(bridge: Bridge, snapshot: PvSnapshot, now: u64)
    ensures
        ({
            let after = bridge.after(BridgeEventView::Received { snapshot, now });
            &&& after.pending == Some(snapshot)
            &&& after.prev == bridge.prev
            &&& after.last_report == bridge.last_report
        }),
        bridge.after(BridgeEventView::Waited) == bridge,
        bridge.action(BridgeEventView::Waited) is Drain,
{
}

/// A report that went out starts the spacing anew, and nothing else changes.
pub proof fn law_reports_start_the_spacing(bridge: Bridge, now: u64)
    ensures
        ({
            let after = bridge.after(BridgeEventView::Reported { now });
            &&& after.last_report == Some(now)
            &&& after.prev == bridge.prev
            &&& after.pending == bridge.pending
        }),
        bridge.action(BridgeEventView::Reported { now }) is Receive,
        bridge.action(BridgeEventView::Closed) is Stop,
        bridge.after(BridgeEventView::Closed) == bridge,
{
}

/// The bridge after a run of events.
pub open spec fn bridge_after(bridge: Bridge, events: Seq<BridgeEventView>) -> Bridge
    decreases events.len(),
{
    if events.len() == 0 {
        bridge
    } else {
        bridge_after(bridge, events.drop_last()).after(events.last())
    }
}

/// Whatever has happened so far: a snapshot that is received, with or without a
/// wait behind it, and finds nothing queued, is published exactly where it differs
/// from what was published last.
pub proof fn law_every_new_snapshot_is_published(
    bridge: Bridge,
    events: Seq<BridgeEventView>,
    snapshot: PvSnapshot,
    now: u64,
    waited: bool,
)
    ensures
        ({
            let before = bridge_after(bridge, events);
            let received = before.after(BridgeEventView::Received { snapshot, now });
            let due = if waited {
                received.after(BridgeEventView::Waited)
            } else {
                received
            };
            let drained = BridgeEventView::Drained { queued: Seq::empty() };
            if snapshot == before.prev {
                due.action(drained) is Receive
            } else {
                due.action(drained) matches BridgeActionView::Publish { state, .. } && state
                    == snapshot && due.after(drained).prev == snapshot
            }
        }),
{
}

/// Of snapshots that queue up, the newest is what is compared and what is read
/// from then on; the others leave no trace.
pub proof fn law_the_newest_snapshot_counts(bridge: Bridge, queued: Seq<PvSnapshot>)
    requires
        queued.len() > 0,
    ensures
        bridge.action(BridgeEventView::Drained { queued }) == bridge.action(
            BridgeEventView::Drained { queued: seq![queued.last()] },
        ),
        bridge.after(BridgeEventView::Drained { queued }).prev == queued.last(),
{
}

/// What is published is what later reports are measured against.
pub proof fn law_published_state_is_remembered(bridge: Bridge, queued: Seq<PvSnapshot>)
    ensures
        bridge.action(BridgeEventView::Drained { queued }) matches BridgeActionView::Publish {
            state,
            report,
        } ==> bridge.after(BridgeEventView::Drained { queued }).prev == state && report
            == report_of(bridge.prev, state) && state != bridge.prev,
{
}

/// After a report at `last`, a snapshot that is received is not looked at
/// before the spacing is over: either it already is, or the wait that is asked
/// for ends with it.
pub proof fn law_reports_keep_their_distance(
    bridge: Bridge,
    last: u64,
    snapshot: PvSnapshot,
    now: u64,
)
    requires
        bridge.last_report == Some(last),
        last <= now,
    ensures
        match bridge.action(BridgeEventView::Received { snapshot, now }) {
            BridgeActionView::Wait { nanos } => now + nanos == last + MIN_REPORT_SPACING_NS,
            BridgeActionView::Drain => now >= last + MIN_REPORT_SPACING_NS,
            _ => false,
        },
        bridge.action(BridgeEventView::Received { snapshot, now }) is Drain <==> now - last
            >= 1_000_000_000,
        bridge.action(BridgeEventView::Received { snapshot, now }) matches BridgeActionView::Wait {
            nanos,
        } ==> 0 < nanos && now + nanos == last + 1_000_000_000,
        now - last >= 1_000_000_000 ==> remaining(Some(last), now) == 0,
        now - last < 1_000_000_000 ==> now + remaining(Some(last), now) == last + 1_000_000_000,
{
}

/// A report that seems to lie ahead is waited for as long as the spacing is.
pub proof fn law_a_clock_that_jumps_waits_the_spacing(
    bridge: Bridge,
    last: u64,
    snapshot: PvSnapshot,
    now: u64,
)
    requires
        bridge.last_report == Some(last),
        now < last,
    ensures
        bridge.action(BridgeEventView::Received { snapshot, now }) == (BridgeActionView::Wait {
            nanos: 1_000_000_000,
        }),
        remaining(Some(last), now) == 1_000_000_000,
{
}

/// The first report does not wait.
pub proof fn law_the_first_report_does_not_wait(
    initial: PvSnapshot,
    snapshot: PvSnapshot,
    now: u64,
)
    ensures
        Bridge::initial(initial).action(BridgeEventView::Received { snapshot, now }) is Drain,
        Bridge::initial(initial).prev == initial,
        Bridge::initial(initial).last_report is None,
        Bridge::initial(initial).pending is None,
        remaining(None, now) == 0,
{
}

/// A time on the Matter epoch is the unix time that it came from, rebased; the
/// order of times is kept.
pub proof fn law_epoch_times_read_back(a: int, b: int)
    ensures
        epoch_seconds(a) matches Some(s) ==> s + MATTER_EPOCH_SECS == a,
        epoch_seconds(a) is Some && epoch_seconds(b) is Some && a < b ==> epoch_seconds(a)->0
            < epoch_seconds(b)->0,
        0 <= a - MATTER_EPOCH_SECS <= u32::MAX <==> epoch_seconds(a) is Some,
{
}

} // verus!
