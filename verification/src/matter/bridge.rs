//! From snapshots to reports: exactly the attributes whose values moved are
//! reported, an event goes with each move of the energy total, and reports keep
//! at least a second between them.
//!
//! The bridge decides; whoever runs it receives the snapshots, waits, sends the
//! reports, and tells it what happened and when. Times are nanoseconds on a
//! clock that does not run backwards.
use vstd::prelude::*;

use crate::domain::PvSnapshot;
use crate::matter::eem;
use crate::matter::eem::{exported_energy, EnergyMeasurement};
use crate::matter::node::{
    ATTR_ACTIVE_CURRENT, ATTR_ACTIVE_POWER, ATTR_CUMULATIVE_ENERGY_EXPORTED, ATTR_FREQUENCY,
    ATTR_MEASURED_VALUE, ATTR_SOURCE_STATUS, ATTR_VOLTAGE, CLUSTER_ENERGY_MEASUREMENT,
    CLUSTER_POWER_MEASUREMENT, CLUSTER_POWER_SOURCE, CLUSTER_TEMPERATURE, EP_ELECTRICAL_SENSOR,
    EP_POWER_SOURCE, EP_TEMPERATURE,
};

verus! {

/// The least time between two reports, nanoseconds.
pub const MIN_REPORT_SPACING_NS: u64 = 1_000_000_000;

/// An attribute of the node.
#[derive(Debug, Clone, Copy, PartialEq, Eq, Structural)]
pub struct AttributePath {
    pub endpoint: u16,
    pub cluster: u32,
    pub attribute: u32,
}

/// The attributes that can change, in the order in which they are reported.
#[derive(Debug, Clone, Copy, PartialEq, Eq, Structural)]
pub enum LiveAttribute {
    Voltage,
    ActiveCurrent,
    ActivePower,
    Frequency,
    CumulativeEnergyExported,
    SourceStatus,
    Temperature,
}

pub open spec fn live_attributes() -> Seq<LiveAttribute> {
    seq![
        LiveAttribute::Voltage,
        LiveAttribute::ActiveCurrent,
        LiveAttribute::ActivePower,
        LiveAttribute::Frequency,
        LiveAttribute::CumulativeEnergyExported,
        LiveAttribute::SourceStatus,
        LiveAttribute::Temperature,
    ]
}

impl LiveAttribute {
    pub open spec fn located(self) -> AttributePath {
        match self {
            LiveAttribute::Voltage => AttributePath {
                endpoint: EP_ELECTRICAL_SENSOR,
                cluster: CLUSTER_POWER_MEASUREMENT,
                attribute: ATTR_VOLTAGE,
            },
            LiveAttribute::ActiveCurrent => AttributePath {
                endpoint: EP_ELECTRICAL_SENSOR,
                cluster: CLUSTER_POWER_MEASUREMENT,
                attribute: ATTR_ACTIVE_CURRENT,
            },
            LiveAttribute::ActivePower => AttributePath {
                endpoint: EP_ELECTRICAL_SENSOR,
                cluster: CLUSTER_POWER_MEASUREMENT,
                attribute: ATTR_ACTIVE_POWER,
            },
            LiveAttribute::Frequency => AttributePath {
                endpoint: EP_ELECTRICAL_SENSOR,
                cluster: CLUSTER_POWER_MEASUREMENT,
                attribute: ATTR_FREQUENCY,
            },
            LiveAttribute::CumulativeEnergyExported => AttributePath {
                endpoint: EP_ELECTRICAL_SENSOR,
                cluster: CLUSTER_ENERGY_MEASUREMENT,
                attribute: ATTR_CUMULATIVE_ENERGY_EXPORTED,
            },
            LiveAttribute::SourceStatus => AttributePath {
                endpoint: EP_POWER_SOURCE,
                cluster: CLUSTER_POWER_SOURCE,
                attribute: ATTR_SOURCE_STATUS,
            },
            LiveAttribute::Temperature => AttributePath {
                endpoint: EP_TEMPERATURE,
                cluster: CLUSTER_TEMPERATURE,
                attribute: ATTR_MEASURED_VALUE,
            },
        }
    }

    /// Where the attribute stands.
    pub fn path(self) -> (res: AttributePath)
        ensures
            res == self.located(),
    {
        match self {
            LiveAttribute::Voltage => AttributePath {
                endpoint: EP_ELECTRICAL_SENSOR,
                cluster: CLUSTER_POWER_MEASUREMENT,
                attribute: ATTR_VOLTAGE,
            },
            LiveAttribute::ActiveCurrent => AttributePath {
                endpoint: EP_ELECTRICAL_SENSOR,
                cluster: CLUSTER_POWER_MEASUREMENT,
                attribute: ATTR_ACTIVE_CURRENT,
            },
            LiveAttribute::ActivePower => AttributePath {
                endpoint: EP_ELECTRICAL_SENSOR,
                cluster: CLUSTER_POWER_MEASUREMENT,
                attribute: ATTR_ACTIVE_POWER,
            },
            LiveAttribute::Frequency => AttributePath {
                endpoint: EP_ELECTRICAL_SENSOR,
                cluster: CLUSTER_POWER_MEASUREMENT,
                attribute: ATTR_FREQUENCY,
            },
            LiveAttribute::CumulativeEnergyExported => AttributePath {
                endpoint: EP_ELECTRICAL_SENSOR,
                cluster: CLUSTER_ENERGY_MEASUREMENT,
                attribute: ATTR_CUMULATIVE_ENERGY_EXPORTED,
            },
            LiveAttribute::SourceStatus => AttributePath {
                endpoint: EP_POWER_SOURCE,
                cluster: CLUSTER_POWER_SOURCE,
                attribute: ATTR_SOURCE_STATUS,
            },
            LiveAttribute::Temperature => AttributePath {
                endpoint: EP_TEMPERATURE,
                cluster: CLUSTER_TEMPERATURE,
                attribute: ATTR_MEASURED_VALUE,
            },
        }
    }

    /// Whether the value behind the attribute differs. Of the energy total only
    /// the total counts: a new time with the same total is no change.
    pub open spec fn moved(self, prev: PvSnapshot, next: PvSnapshot) -> bool {
        match self {
            LiveAttribute::Voltage => next.voltage_mv != prev.voltage_mv,
            LiveAttribute::ActiveCurrent => next.current_ma != prev.current_ma,
            LiveAttribute::ActivePower => next.power_mw != prev.power_mw,
            LiveAttribute::Frequency => next.frequency_mhz != prev.frequency_mhz,
            LiveAttribute::CumulativeEnergyExported => next.energy_total_mwh
                != prev.energy_total_mwh,
            LiveAttribute::SourceStatus => next.status() != prev.status(),
            LiveAttribute::Temperature => next.temperature_centi_c != prev.temperature_centi_c,
        }
    }

    pub fn changed(self, prev: &PvSnapshot, next: &PvSnapshot) -> (res: bool)
        ensures
            res == self.moved(*prev, *next),
    {
        match self {
            LiveAttribute::Voltage => next.voltage_mv != prev.voltage_mv,
            LiveAttribute::ActiveCurrent => next.current_ma != prev.current_ma,
            LiveAttribute::ActivePower => next.power_mw != prev.power_mw,
            LiveAttribute::Frequency => next.frequency_mhz != prev.frequency_mhz,
            LiveAttribute::CumulativeEnergyExported => next.energy_total_mwh
                != prev.energy_total_mwh,
            LiveAttribute::SourceStatus => next.source_status() != prev.source_status(),
            LiveAttribute::Temperature => next.temperature_centi_c != prev.temperature_centi_c,
        }
    }
}

/// What goes out for one change of the snapshot.
#[derive(Debug, Clone, PartialEq, Eq)]
pub struct Report {
    /// The attributes that changed, in order.
    pub changed: Vec<LiveAttribute>,
    /// The `CumulativeEnergyMeasured` event, which goes out behind its attribute.
    pub event: Option<EnergyMeasurement>,
    /// Whether the nameplate rating changed, and with it the accuracy bounds.
    pub rating_changed: bool,
}

pub struct ReportView {
    pub changed: Seq<LiveAttribute>,
    pub event: Option<EnergyMeasurement>,
    pub rating_changed: bool,
}

impl DeepView for Report {
    type V = ReportView;

    open spec fn deep_view(&self) -> ReportView {
        ReportView {
            changed: self.changed@,
            event: self.event,
            rating_changed: self.rating_changed,
        }
    }
}

/// The report of the change from `prev` to `next`.
pub open spec fn report_of(prev: PvSnapshot, next: PvSnapshot) -> ReportView {
    ReportView {
        changed: live_attributes().filter(|a: LiveAttribute| a.moved(prev, next)),
        event: if LiveAttribute::CumulativeEnergyExported.moved(prev, next) {
            exported_energy(next)
        } else {
            None
        },
        rating_changed: next.max_power_w != prev.max_power_w,
    }
}

/// The attributes that differ between two snapshots.
fn changed_attributes(prev: &PvSnapshot, next: &PvSnapshot) -> (res: Vec<LiveAttribute>)
    ensures
        res@ == live_attributes().filter(|a: LiveAttribute| a.moved(*prev, *next)),
{
    let live: [LiveAttribute; 7] = [
        LiveAttribute::Voltage,
        LiveAttribute::ActiveCurrent,
        LiveAttribute::ActivePower,
        LiveAttribute::Frequency,
        LiveAttribute::CumulativeEnergyExported,
        LiveAttribute::SourceStatus,
        LiveAttribute::Temperature,
    ];
    let ghost moved = |a: LiveAttribute| a.moved(*prev, *next);
    let mut changed: Vec<LiveAttribute> = Vec::new();
    assert(live@ == live_attributes());
    assert(live@.take(0).filter(moved) == Seq::<LiveAttribute>::empty()) by {
        reveal(Seq::filter);
    }
    let mut i: usize = 0;
    while i < 7
        invariant
            i <= 7,
            live@ == live_attributes(),
            moved == (|a: LiveAttribute| a.moved(*prev, *next)),
            changed@ == live@.take(i as int).filter(moved),
        decreases 7 - i,
    {
        let attribute = live[i];
        proof {
            assert(live@.take(i + 1).drop_last() == live@.take(i as int));
            reveal(Seq::filter);
        }
        if attribute.changed(prev, next) {
            changed.push(attribute);
        }
        i = i + 1;
    }
    assert(live@.take(7) == live@);
    changed
}

/// The report of the change from `prev` to `next`.
pub fn report(prev: &PvSnapshot, next: &PvSnapshot) -> (res: Report)
    ensures
        res.deep_view() == report_of(*prev, *next),
{
    let changed = changed_attributes(prev, next);
    let event: Option<EnergyMeasurement> = if next.energy_total_mwh != prev.energy_total_mwh {
        eem::cumulative_energy_exported(next)
    } else {
        None
    };
    Report { changed, event, rating_changed: next.max_power_w != prev.max_power_w }
}

/// What happens to the bridge.
#[derive(Debug, Clone, PartialEq, Eq)]
pub enum BridgeEvent {
    /// A snapshot was received.
    Received { snapshot: PvSnapshot, now: u64 },
    /// The wait that was asked for is over.
    Waited,
    /// These snapshots had queued up, the newest last.
    Drained { queued: Vec<PvSnapshot> },
    /// A report went out.
    Reported { now: u64 },
    /// No snapshot will come any more.
    Closed,
}

/// What to do next.
#[derive(Debug, Clone, PartialEq, Eq)]
pub enum BridgeAction {
    /// Receive the next snapshot.
    Receive,
    /// Wait this long.
    Wait { nanos: u64 },
    /// Take what has queued up meanwhile, without waiting for more.
    Drain,
    /// Let `state` be what is read from now on, and send the report.
    Publish { state: PvSnapshot, report: Report },
    /// The bridge is done.
    Stop,
}

pub enum BridgeEventView {
    Received { snapshot: PvSnapshot, now: u64 },
    Waited,
    Drained { queued: Seq<PvSnapshot> },
    Reported { now: u64 },
    Closed,
}

pub enum BridgeActionView {
    Receive,
    Wait { nanos: u64 },
    Drain,
    Publish { state: PvSnapshot, report: ReportView },
    Stop,
}

impl DeepView for BridgeEvent {
    type V = BridgeEventView;

    open spec fn deep_view(&self) -> BridgeEventView {
        match self {
            BridgeEvent::Received { snapshot, now } => BridgeEventView::Received {
                snapshot: *snapshot,
                now: *now,
            },
            BridgeEvent::Waited => BridgeEventView::Waited,
            BridgeEvent::Drained { queued } => BridgeEventView::Drained { queued: queued@ },
            BridgeEvent::Reported { now } => BridgeEventView::Reported { now: *now },
            BridgeEvent::Closed => BridgeEventView::Closed,
        }
    }
}

impl DeepView for BridgeAction {
    type V = BridgeActionView;

    open spec fn deep_view(&self) -> BridgeActionView {
        match self {
            BridgeAction::Receive => BridgeActionView::Receive,
            BridgeAction::Wait { nanos } => BridgeActionView::Wait { nanos: *nanos },
            BridgeAction::Drain => BridgeActionView::Drain,
            BridgeAction::Publish { state, report } => BridgeActionView::Publish {
                state: *state,
                report: report.deep_view(),
            },
            BridgeAction::Stop => BridgeActionView::Stop,
        }
    }
}

/// The newest of a snapshot and those that queued up behind it.
pub open spec fn newest(first: PvSnapshot, queued: Seq<PvSnapshot>) -> PvSnapshot {
    if queued.len() == 0 {
        first
    } else {
        queued.last()
    }
}

/// How long a report has to wait at `now`, after one at `last_report`.
pub open spec fn remaining(last_report: Option<u64>, now: u64) -> int {
    match last_report {
        Some(last) => {
            let elapsed = if last <= now {
                now - last
            } else {
                0
            };
            if elapsed < MIN_REPORT_SPACING_NS {
                MIN_REPORT_SPACING_NS - elapsed
            } else {
                0
            }
        },
        None => 0,
    }
}

/// What the bridge remembers.
#[derive(Debug, Clone, Copy, PartialEq, Eq, Structural)]
pub struct Bridge {
    /// What was reported last.
    pub prev: PvSnapshot,
    /// When that was.
    pub last_report: Option<u64>,
    /// What has been received and not yet looked at.
    pub pending: Option<PvSnapshot>,
}

impl Bridge {
    pub open spec fn initial(prev: PvSnapshot) -> Bridge {
        Bridge { prev, last_report: None, pending: None }
    }

    /// What the queue leaves to be reported.
    pub open spec fn candidate(self, queued: Seq<PvSnapshot>) -> PvSnapshot {
        newest(
            match self.pending {
                Some(snapshot) => snapshot,
                None => self.prev,
            },
            queued,
        )
    }

    pub open spec fn after(self, event: BridgeEventView) -> Bridge {
        match event {
            BridgeEventView::Received { snapshot, .. } => Bridge {
                pending: Some(snapshot),
                ..self
            },
            BridgeEventView::Drained { queued } => Bridge {
                prev: self.candidate(queued),
                pending: None,
                ..self
            },
            BridgeEventView::Reported { now } => Bridge { last_report: Some(now), ..self },
            BridgeEventView::Waited | BridgeEventView::Closed => self,
        }
    }

    pub open spec fn action(self, event: BridgeEventView) -> BridgeActionView {
        match event {
            BridgeEventView::Received { now, .. } => if remaining(self.last_report, now) > 0 {
                BridgeActionView::Wait { nanos: remaining(self.last_report, now) as u64 }
            } else {
                BridgeActionView::Drain
            },
            BridgeEventView::Waited => BridgeActionView::Drain,
            BridgeEventView::Drained { queued } => {
                let next = self.candidate(queued);
                if next == self.prev {
                    BridgeActionView::Receive
                } else {
                    BridgeActionView::Publish { state: next, report: report_of(self.prev, next) }
                }
            },
            BridgeEventView::Reported { .. } => BridgeActionView::Receive,
            BridgeEventView::Closed => BridgeActionView::Stop,
        }
    }

    pub fn new(initial: PvSnapshot) -> (res: Self)
        ensures
            res == Bridge::initial(initial),
    {
        Bridge { prev: initial, last_report: None, pending: None }
    }

    /// How long a report has to wait at `now`.
    pub fn delay(&self, now: u64) -> (res: u64)
        ensures
            res == remaining(self.last_report, now),
    {
        match self.last_report {
            Some(last) => {
                let elapsed: u64 = if last <= now {
                    now - last
                } else {
                    0
                };
                if elapsed < MIN_REPORT_SPACING_NS {
                    MIN_REPORT_SPACING_NS - elapsed
                } else {
                    0
                }
            },
            None => 0,
        }
    }

    /// Decides what to do next.
    pub fn step(&mut self, event: &BridgeEvent) -> (res: BridgeAction)
        ensures
            res.deep_view() == old(self).action(event.deep_view()),
            *final(self) == old(self).after(event.deep_view()),
    {
        match event {
            BridgeEvent::Received { snapshot, now } => {
                self.pending = Some(*snapshot);
                let nanos: u64 = self.delay(*now);
                if nanos > 0 {
                    BridgeAction::Wait { nanos }
                } else {
                    BridgeAction::Drain
                }
            },
            BridgeEvent::Waited => BridgeAction::Drain,
            BridgeEvent::Drained { queued } => {
                let prev = self.prev;
                let first = match self.pending {
                    Some(snapshot) => snapshot,
                    None => prev,
                };
                let next = if queued.len() == 0 {
                    first
                } else {
                    queued[queued.len() - 1]
                };
                self.pending = None;
                self.prev = next;
                if next == prev {
                    BridgeAction::Receive
                } else {
                    BridgeAction::Publish { state: next, report: report(&prev, &next) }
                }
            },
            BridgeEvent::Reported { now } => {
                self.last_report = Some(*now);
                BridgeAction::Receive
            },
            BridgeEvent::Closed => BridgeAction::Stop,
        }
    }
}

} // verus!
