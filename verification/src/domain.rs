//! The PV domain: the snapshot that the Matter clusters are read from, the
//! inverter's identity, and what each message of the publisher does to them.
//! Knows the record names and units, but neither the transport nor the Matter
//! encoding.
//!
//! Readings are kept in Matter's units (mV, mA, mW, mHz, mWh and hundredths of
//! a degree), scaled exactly, so that "changed" is a comparison of integers.
use vstd::prelude::*;

use crate::json;
use crate::senml;
use crate::senml::{scaled_literal, Pack, PackView, Record, RecordView, Value, ValueView};
use crate::text;

verus! {

/// What the `status` topic says, and that nothing has been seen there yet.
#[derive(Debug, Clone, Copy, PartialEq, Eq, Structural)]
pub enum LinkStatus {
    /// Nothing received yet.
    Unknown,
    Online,
    /// After dusk, or the inverter stopped answering: instantaneous readings
    /// mean nothing, the energy total still does.
    Asleep,
    /// The publisher is gone.
    Offline,
}

impl Default for LinkStatus {
    fn default() -> (res: Self)
        ensures
            res == LinkStatus::Unknown,
    {
        LinkStatus::Unknown
    }
}

impl LinkStatus {
    /// The status that a text stands for; white space around it is ignored.
    pub open spec fn named(payload: Seq<char>) -> Option<LinkStatus> {
        let word = text::trimmed(payload);
        if word == "online"@ {
            Some(LinkStatus::Online)
        } else if word == "asleep"@ {
            Some(LinkStatus::Asleep)
        } else if word == "offline"@ {
            Some(LinkStatus::Offline)
        } else {
            None
        }
    }

    pub fn parse(payload: &str) -> (res: Option<Self>)
        ensures
            res == LinkStatus::named(payload@),
    {
        let word = text::trim(payload);
        if text::same(word, "online") {
            Some(LinkStatus::Online)
        } else if text::same(word, "asleep") {
            Some(LinkStatus::Asleep)
        } else if text::same(word, "offline") {
            Some(LinkStatus::Offline)
        } else {
            None
        }
    }
}

/// What the Matter Power Source cluster says, from the mildest to the most
/// severe. `Unspecified` comes of an unknown link only.
#[derive(Debug, Clone, Copy, PartialEq, Eq, PartialOrd, Ord, Structural)]
pub enum SourceStatus {
    Unspecified,
    Active,
    Standby,
    Unavailable,
}

impl SourceStatus {
    pub open spec fn severity(self) -> int {
        match self {
            SourceStatus::Unspecified => 0,
            SourceStatus::Active => 1,
            SourceStatus::Standby => 2,
            SourceStatus::Unavailable => 3,
        }
    }

    /// The more severe of the two.
    pub open spec fn worse(self, other: SourceStatus) -> SourceStatus {
        if self.severity() < other.severity() {
            other
        } else {
            self
        }
    }

    fn worst(self, other: SourceStatus) -> (res: SourceStatus)
        ensures
            res == self.worse(other),
    {
        match (self, other) {
            (SourceStatus::Unavailable, _) => self,
            (_, SourceStatus::Unavailable) => other,
            (SourceStatus::Standby, _) => self,
            (_, SourceStatus::Standby) => other,
            (SourceStatus::Active, _) => self,
            (_, SourceStatus::Active) => other,
            (SourceStatus::Unspecified, SourceStatus::Unspecified) => self,
        }
    }
}

/// `device/status`: the inverter's own report of its health.
#[derive(Debug, Clone, Copy, PartialEq, Eq, Structural)]
pub enum DeviceStatus {
    Okay,
    Warning,
    Fault,
    Off,
    Unknown,
}

impl DeviceStatus {
    pub open spec fn named(vs: Seq<char>) -> Option<DeviceStatus> {
        if vs == "ok"@ {
            Some(DeviceStatus::Okay)
        } else if vs == "warning"@ {
            Some(DeviceStatus::Warning)
        } else if vs == "fault"@ {
            Some(DeviceStatus::Fault)
        } else if vs == "off"@ {
            Some(DeviceStatus::Off)
        } else if vs == "unknown"@ {
            Some(DeviceStatus::Unknown)
        } else {
            None
        }
    }

    /// The health that a record's text stands for. A text outside the
    /// publisher's set (it may pass on a raw code) is left unmapped.
    pub fn parse(vs: &str) -> (res: Option<Self>)
        ensures
            res == DeviceStatus::named(vs@),
    {
        if text::same(vs, "ok") {
            Some(DeviceStatus::Okay)
        } else if text::same(vs, "warning") {
            Some(DeviceStatus::Warning)
        } else if text::same(vs, "fault") {
            Some(DeviceStatus::Fault)
        } else if text::same(vs, "off") {
            Some(DeviceStatus::Off)
        } else if text::same(vs, "unknown") {
            Some(DeviceStatus::Unknown)
        } else {
            None
        }
    }

    pub open spec fn vote(self) -> Option<SourceStatus> {
        match self {
            DeviceStatus::Okay | DeviceStatus::Warning => Some(SourceStatus::Active),
            DeviceStatus::Fault | DeviceStatus::Off => Some(SourceStatus::Unavailable),
            DeviceStatus::Unknown => None,
        }
    }

    /// What this signal says of an online source; `unknown` abstains.
    pub fn source_vote(self) -> (res: Option<SourceStatus>)
        ensures
            res == self.vote(),
    {
        match self {
            DeviceStatus::Okay | DeviceStatus::Warning => Some(SourceStatus::Active),
            DeviceStatus::Fault | DeviceStatus::Off => Some(SourceStatus::Unavailable),
            DeviceStatus::Unknown => None,
        }
    }
}

/// `device/grid_relay`: the relay that disconnects the inverter from the grid.
#[derive(Debug, Clone, Copy, PartialEq, Eq, Structural)]
pub enum GridRelay {
    Closed,
    Open,
    Fault,
    Unknown,
}

impl GridRelay {
    pub open spec fn named(vs: Seq<char>) -> Option<GridRelay> {
        if vs == "closed"@ {
            Some(GridRelay::Closed)
        } else if vs == "open"@ {
            Some(GridRelay::Open)
        } else if vs == "fault"@ {
            Some(GridRelay::Fault)
        } else if vs == "unknown"@ {
            Some(GridRelay::Unknown)
        } else {
            None
        }
    }

    /// The relay state that a record's text stands for.
    pub fn parse(vs: &str) -> (res: Option<Self>)
        ensures
            res == GridRelay::named(vs@),
    {
        if text::same(vs, "closed") {
            Some(GridRelay::Closed)
        } else if text::same(vs, "open") {
            Some(GridRelay::Open)
        } else if text::same(vs, "fault") {
            Some(GridRelay::Fault)
        } else if text::same(vs, "unknown") {
            Some(GridRelay::Unknown)
        } else {
            None
        }
    }

    pub open spec fn vote(self) -> SourceStatus {
        match self {
            GridRelay::Closed => SourceStatus::Active,
            GridRelay::Open | GridRelay::Unknown => SourceStatus::Standby,
            GridRelay::Fault => SourceStatus::Unavailable,
        }
    }

    /// What this signal says of an online source. `unknown`, the nightly "no
    /// data", reads as not feeding.
    pub fn source_vote(self) -> (res: Option<SourceStatus>)
        ensures
            res == Some(self.vote()),
    {
        Some(
            match self {
                GridRelay::Closed => SourceStatus::Active,
                GridRelay::Open | GridRelay::Unknown => SourceStatus::Standby,
                GridRelay::Fault => SourceStatus::Unavailable,
            },
        )
    }
}

/// The state that the Matter clusters are read from. An instantaneous reading
/// is `None` while it cannot be measured: it is absent from the last pack, or
/// the link is not online. The energy total and the nameplate rating stay.
#[derive(Debug, Clone, Copy, PartialEq, Eq, Structural)]
pub struct PvSnapshot {
    pub link: LinkStatus,
    /// `ac/l1/voltage`, millivolts.
    pub voltage_mv: Option<i64>,
    /// `ac/l1/current`, milliamperes, production positive.
    pub current_ma: Option<i64>,
    /// `ac/total_power`, milliwatts, production positive.
    pub power_mw: Option<i64>,
    /// `ac/frequency`, millihertz.
    pub frequency_mhz: Option<i64>,
    /// `energy/total`, milliwatt-hours: the lifetime export counter.
    pub energy_total_mwh: Option<i64>,
    /// When the inverter measured the energy total, in unix seconds.
    pub energy_end_ts: Option<i64>,
    /// `device/temperature`, hundredths of a degree Celsius.
    pub temperature_centi_c: Option<i16>,
    pub device_status: Option<DeviceStatus>,
    pub grid_relay: Option<GridRelay>,
    /// Nameplate AC power rating, watts.
    pub max_power_w: Option<i64>,
}

/// The decimal shift from a unit to its Matter unit, where it is one of those
/// that are mapped to thousandths.
pub open spec fn milli_exponent(unit: Option<Seq<char>>) -> Option<nat> {
    match unit {
        Some(u) => if u == "W"@ || u == "V"@ || u == "A"@ || u == "Hz"@ || u == "Wh"@ {
            Some(3)
        } else {
            None
        },
        None => None,
    }
}

/// A number record times ten to the power `shift`; `None` without a shift, for
/// a text, and for a literal that cannot be scaled.
pub open spec fn scaled_value(value: ValueView, shift: Option<nat>) -> Option<i64> {
    match (value, shift) {
        (ValueView::Number(literal), Some(exp)) => scaled_literal(literal, exp),
        _ => None,
    }
}

/// A record's reading in thousandths of its unit.
pub open spec fn milli_reading(record: RecordView) -> Option<i64> {
    scaled_value(record.value, milli_exponent(record.unit))
}

/// A record's reading in hundredths of a degree Celsius.
pub open spec fn temperature_reading(record: RecordView) -> Option<i16> {
    if record.unit == Some("Cel"@) {
        match scaled_value(record.value, Some(2)) {
            Some(v) => if i16::MIN <= v <= i16::MAX {
                Some(v as i16)
            } else {
                None
            },
            None => None,
        }
    } else {
        None
    }
}

/// The last record called `name`.
pub open spec fn last_named(records: Seq<RecordView>, name: Seq<char>) -> Option<RecordView>
    decreases records.len(),
{
    if records.len() == 0 {
        None
    } else if records.last().name == name {
        Some(records.last())
    } else {
        last_named(records.drop_last(), name)
    }
}

/// The text of the last record called `name` that holds one.
pub open spec fn last_text(records: Seq<RecordView>, name: Seq<char>) -> Option<Seq<char>>
    decreases records.len(),
{
    if records.len() == 0 {
        None
    } else {
        match records.last().value {
            ValueView::Text(text) if records.last().name == name => Some(text),
            _ => last_text(records.drop_last(), name),
        }
    }
}

/// The last record of the energy total that can be scaled.
pub open spec fn last_energy(records: Seq<RecordView>) -> Option<RecordView>
    decreases records.len(),
{
    if records.len() == 0 {
        None
    } else if records.last().name == "energy/total"@ && milli_reading(records.last()) is Some {
        Some(records.last())
    } else {
        last_energy(records.drop_last())
    }
}

/// The milli-unit reading of the last record called `name`.
pub open spec fn milli_of(records: Seq<RecordView>, name: Seq<char>) -> Option<i64> {
    match last_named(records, name) {
        Some(record) => milli_reading(record),
        None => None,
    }
}

pub open spec fn temperature_of(records: Seq<RecordView>) -> Option<i16> {
    match last_named(records, "device/temperature"@) {
        Some(record) => temperature_reading(record),
        None => None,
    }
}

pub open spec fn device_status_of(records: Seq<RecordView>) -> Option<DeviceStatus> {
    match last_text(records, "device/status"@) {
        Some(vs) => DeviceStatus::named(vs),
        None => None,
    }
}

pub open spec fn grid_relay_of(records: Seq<RecordView>) -> Option<GridRelay> {
    match last_text(records, "device/grid_relay"@) {
        Some(vs) => GridRelay::named(vs),
        None => None,
    }
}

/// The shift of a record that is read as a number.
pub open spec fn shift_of(record: RecordView) -> Option<nat> {
    if record.name == "ac/total_power"@ || record.name == "ac/l1/voltage"@ || record.name
        == "ac/l1/current"@ || record.name == "ac/frequency"@ || record.name == "energy/total"@ {
        milli_exponent(record.unit)
    } else if record.name == "device/temperature"@ && record.unit == Some("Cel"@) {
        Some(2)
    } else {
        None
    }
}

/// The literal of a record that is read as a number and cannot be scaled.
pub open spec fn bad_literal(record: RecordView) -> Option<Seq<char>> {
    match (record.value, shift_of(record)) {
        (ValueView::Number(literal), Some(exp)) => if scaled_literal(literal, exp) is None {
            Some(literal)
        } else {
            None
        },
        _ => None,
    }
}

/// The names and literals of the records that are read as numbers and cannot be
/// scaled, in order.
pub open spec fn bad_literals(records: Seq<RecordView>) -> Seq<(Seq<char>, Seq<char>)>
    decreases records.len(),
{
    if records.len() == 0 {
        Seq::empty()
    } else {
        let before = bad_literals(records.drop_last());
        match bad_literal(records.last()) {
            Some(literal) => before.push((records.last().name, literal)),
            None => before,
        }
    }
}

/// Whether the time of each energy total in `pack` is in the range of `i64`.
pub open spec fn energy_times_fit(pack: PackView) -> bool {
    forall|i: int|
        0 <= i < pack.records.len() && (#[trigger] pack.records[i]).name == "energy/total"@
            && milli_reading(pack.records[i]) is Some ==> i64::MIN <= pack.base_time
            + pack.records[i].time_offset <= i64::MAX
}

impl PvSnapshot {
    /// Nothing seen yet.
    pub open spec fn blank() -> PvSnapshot {
        PvSnapshot {
            link: LinkStatus::Unknown,
            voltage_mv: None,
            current_ma: None,
            power_mw: None,
            frequency_mhz: None,
            energy_total_mwh: None,
            energy_end_ts: None,
            temperature_centi_c: None,
            device_status: None,
            grid_relay: None,
            max_power_w: None,
        }
    }

    /// Without the instantaneous readings.
    pub open spec fn without_readings(self) -> PvSnapshot {
        PvSnapshot {
            voltage_mv: None,
            current_ma: None,
            power_mw: None,
            frequency_mhz: None,
            temperature_centi_c: None,
            device_status: None,
            grid_relay: None,
            ..self
        }
    }

    /// Without the instantaneous readings unless the link is online.
    pub open spec fn masked(self) -> PvSnapshot {
        if self.link == LinkStatus::Online {
            self
        } else {
            self.without_readings()
        }
    }

    /// After an `instantaneous` pack.
    pub open spec fn after_pack(self, pack: PackView) -> PvSnapshot {
        let energy = last_energy(pack.records);
        PvSnapshot {
            link: self.link,
            voltage_mv: milli_of(pack.records, "ac/l1/voltage"@),
            current_ma: milli_of(pack.records, "ac/l1/current"@),
            power_mw: milli_of(pack.records, "ac/total_power"@),
            frequency_mhz: milli_of(pack.records, "ac/frequency"@),
            energy_total_mwh: match energy {
                Some(record) => milli_reading(record),
                None => self.energy_total_mwh,
            },
            energy_end_ts: match energy {
                Some(record) => Some((pack.base_time + record.time_offset) as i64),
                None => self.energy_end_ts,
            },
            temperature_centi_c: temperature_of(pack.records),
            device_status: device_status_of(pack.records),
            grid_relay: grid_relay_of(pack.records),
            max_power_w: self.max_power_w,
        }.masked()
    }

    /// After a `status` message.
    pub open spec fn after_status(self, status: LinkStatus) -> PvSnapshot {
        PvSnapshot { link: status, ..self }.masked()
    }

    /// What the Power Source cluster says. Online, each signal that is present
    /// and does not abstain has a vote, and the most severe one wins.
    pub open spec fn status(self) -> SourceStatus {
        match self.link {
            LinkStatus::Unknown => SourceStatus::Unspecified,
            LinkStatus::Offline => SourceStatus::Unavailable,
            LinkStatus::Asleep => SourceStatus::Standby,
            LinkStatus::Online => {
                let device = match self.device_status {
                    Some(status) => match status.vote() {
                        Some(vote) => vote,
                        None => SourceStatus::Active,
                    },
                    None => SourceStatus::Active,
                };
                let relay = match self.grid_relay {
                    Some(relay) => relay.vote(),
                    None => SourceStatus::Active,
                };
                device.worse(relay)
            },
        }
    }

    /// Applies one `instantaneous` pack. A reading that is not in the pack
    /// becomes `None`; the energy total stays where the pack has none.
    pub fn apply_pack(&mut self, pack: &Pack)
        requires
            energy_times_fit(pack.deep_view()),
        ensures
            *final(self) == old(self).after_pack(pack.deep_view()),
    {
        let ghost view = pack.deep_view();
        let ghost all = view.records;
        let ghost before = *self;
        let mut voltage: Option<i64> = None;
        let mut current: Option<i64> = None;
        let mut power: Option<i64> = None;
        let mut frequency: Option<i64> = None;
        let mut temperature: Option<i16> = None;
        let mut device_status: Option<DeviceStatus> = None;
        let mut relay: Option<GridRelay> = None;
        let mut i: usize = 0;
        proof {
            distinct_names();
            assert(all.take(0) == Seq::<RecordView>::empty());
        }
        while i < pack.records.len()
            invariant
                i <= pack.records.len(),
                view == pack.deep_view(),
                all == view.records,
                all.len() == pack.records.len(),
                energy_times_fit(view),
                names_distinct(),
                voltage == milli_of(all.take(i as int), "ac/l1/voltage"@),
                current == milli_of(all.take(i as int), "ac/l1/current"@),
                power == milli_of(all.take(i as int), "ac/total_power"@),
                frequency == milli_of(all.take(i as int), "ac/frequency"@),
                temperature == temperature_of(all.take(i as int)),
                device_status == device_status_of(all.take(i as int)),
                relay == grid_relay_of(all.take(i as int)),
                match last_energy(all.take(i as int)) {
                    Some(record) => self.energy_total_mwh == milli_reading(record)
                        && self.energy_end_ts == Some((view.base_time + record.time_offset) as i64),
                    None => self.energy_total_mwh == before.energy_total_mwh && self.energy_end_ts
                        == before.energy_end_ts,
                },
                self.link == before.link,
                self.max_power_w == before.max_power_w,
            decreases pack.records.len() - i,
        {
            let record = &pack.records[i];
            proof {
                assert(all[i as int] == record.deep_view());
                assert(all.take(i + 1).drop_last() == all.take(i as int));
                assert(all.take(i + 1).last() == record.deep_view());
            }
            let name = record.name.as_str();
            if text::same(name, "ac/total_power") {
                power = scaled(record, milli_shift(&record.unit));
            } else if text::same(name, "ac/l1/voltage") {
                voltage = scaled(record, milli_shift(&record.unit));
            } else if text::same(name, "ac/l1/current") {
                current = scaled(record, milli_shift(&record.unit));
            } else if text::same(name, "ac/frequency") {
                frequency = scaled(record, milli_shift(&record.unit));
            } else if text::same(name, "device/temperature") {
                temperature = centi_degrees(record);
            } else if text::same(name, "energy/total") {
                if let Some(mwh) = scaled(record, milli_shift(&record.unit)) {
                    self.energy_total_mwh = Some(mwh);
                    self.energy_end_ts = Some(pack.base_time + record.time_offset);
                }
            } else if text::same(name, "device/status") {
                if let Value::Text(vs) = &record.value {
                    device_status = DeviceStatus::parse(vs.as_str());
                }
            } else if text::same(name, "device/grid_relay") {
                if let Value::Text(vs) = &record.value {
                    relay = GridRelay::parse(vs.as_str());
                }
            }
            i = i + 1;
        }
        assert(all.take(all.len() as int) == all);
        self.voltage_mv = voltage;
        self.current_ma = current;
        self.power_mw = power;
        self.frequency_mhz = frequency;
        self.temperature_centi_c = temperature;
        self.device_status = device_status;
        self.grid_relay = relay;
        self.enforce_link_mask();
    }

    /// Applies a `status` message. Anything but online blanks the instantaneous
    /// readings, so that a pack from before dusk does not read as live, and
    /// keeps the energy total.
    pub fn set_status(&mut self, status: LinkStatus)
        ensures
            *final(self) == old(self).after_status(status),
    {
        self.link = status;
        self.enforce_link_mask();
    }

    fn enforce_link_mask(&mut self)
        ensures
            *final(self) == old(self).masked(),
    {
        if self.link != LinkStatus::Online {
            self.voltage_mv = None;
            self.current_ma = None;
            self.power_mw = None;
            self.frequency_mhz = None;
            self.temperature_centi_c = None;
            self.device_status = None;
            self.grid_relay = None;
        }
    }

    /// The Power Source cluster's `Status`.
    pub fn source_status(&self) -> (res: SourceStatus)
        ensures
            res == self.status(),
    {
        match self.link {
            LinkStatus::Unknown => SourceStatus::Unspecified,
            LinkStatus::Offline => SourceStatus::Unavailable,
            LinkStatus::Asleep => SourceStatus::Standby,
            LinkStatus::Online => {
                let device: Option<SourceStatus> = match self.device_status {
                    Some(status) => status.source_vote(),
                    None => None,
                };
                let relay: Option<SourceStatus> = match self.grid_relay {
                    Some(relay) => relay.source_vote(),
                    None => None,
                };
                device.unwrap_or(SourceStatus::Active).worst(relay.unwrap_or(SourceStatus::Active))
            },
        }
    }
}

impl Default for PvSnapshot {
    fn default() -> (res: Self)
        ensures
            res == PvSnapshot::blank(),
    {
        PvSnapshot {
            link: LinkStatus::Unknown,
            voltage_mv: None,
            current_ma: None,
            power_mw: None,
            frequency_mhz: None,
            energy_total_mwh: None,
            energy_end_ts: None,
            temperature_centi_c: None,
            device_status: None,
            grid_relay: None,
            max_power_w: None,
        }
    }
}

/// The record names that are mapped differ from each other.
spec fn names_distinct() -> bool {
    &&& "ac/total_power"@ != "ac/l1/voltage"@
    &&& "ac/total_power"@ != "ac/l1/current"@
    &&& "ac/total_power"@ != "ac/frequency"@
    &&& "ac/total_power"@ != "device/temperature"@
    &&& "ac/total_power"@ != "energy/total"@
    &&& "ac/total_power"@ != "device/status"@
    &&& "ac/total_power"@ != "device/grid_relay"@
    &&& "ac/l1/voltage"@ != "ac/l1/current"@
    &&& "ac/l1/voltage"@ != "ac/frequency"@
    &&& "ac/l1/voltage"@ != "device/temperature"@
    &&& "ac/l1/voltage"@ != "energy/total"@
    &&& "ac/l1/voltage"@ != "device/status"@
    &&& "ac/l1/voltage"@ != "device/grid_relay"@
    &&& "ac/l1/current"@ != "ac/frequency"@
    &&& "ac/l1/current"@ != "device/temperature"@
    &&& "ac/l1/current"@ != "energy/total"@
    &&& "ac/l1/current"@ != "device/status"@
    &&& "ac/l1/current"@ != "device/grid_relay"@
    &&& "ac/frequency"@ != "device/temperature"@
    &&& "ac/frequency"@ != "energy/total"@
    &&& "ac/frequency"@ != "device/status"@
    &&& "ac/frequency"@ != "device/grid_relay"@
    &&& "device/temperature"@ != "energy/total"@
    &&& "device/temperature"@ != "device/status"@
    &&& "device/temperature"@ != "device/grid_relay"@
    &&& "energy/total"@ != "device/status"@
    &&& "energy/total"@ != "device/grid_relay"@
    &&& "device/status"@ != "device/grid_relay"@
}

proof fn distinct_names()
    ensures
        names_distinct(),
{
    reveal_strlit("ac/total_power");
    reveal_strlit("ac/l1/voltage");
    reveal_strlit("ac/l1/current");
    reveal_strlit("ac/frequency");
    reveal_strlit("device/temperature");
    reveal_strlit("energy/total");
    reveal_strlit("device/status");
    reveal_strlit("device/grid_relay");
    assert("ac/total_power"@.len() == 14);
    assert("ac/l1/voltage"@.len() == 13);
    assert("ac/l1/current"@.len() == 13);
    assert("ac/frequency"@.len() == 12);
    assert("device/temperature"@.len() == 18);
    assert("energy/total"@.len() == 12);
    assert("device/status"@.len() == 13);
    assert("device/grid_relay"@.len() == 17);
    // Names of one length differ in a character.
    assert("ac/l1/voltage"@[6] != "ac/l1/current"@[6]);
    assert("ac/l1/voltage"@[0] != "device/status"@[0]);
    assert("ac/l1/current"@[0] != "device/status"@[0]);
    assert("ac/frequency"@[0] != "energy/total"@[0]);
}

/// The shift of a unit that is mapped to thousandths.
fn milli_shift(unit: &Option<String>) -> (res: Option<u32>)
    ensures
        match milli_exponent(unit.deep_view()) {
            Some(exp) => res is Some && res->0 == exp,
            None => res is None,
        },
{
    match unit {
        Some(u) => {
            let u = u.as_str();
            if text::same(u, "W") || text::same(u, "V") || text::same(u, "A") || text::same(u, "Hz")
                || text::same(u, "Wh") {
                Some(3)
            } else {
                None
            }
        },
        None => None,
    }
}

/// A number record scaled by ten to the power `shift`. Nothing is invented.
fn scaled(record: &Record, shift: Option<u32>) -> (res: Option<i64>)
    ensures
        res == scaled_value(
            record.value.deep_view(),
            match shift {
                Some(exp) => Some(exp as nat),
                None => None,
            },
        ),
{
    match shift {
        Some(exp) => match &record.value {
            Value::Number(literal) => senml::scale_decimal(literal.as_str(), exp),
            Value::Text(_) => None,
        },
        None => None,
    }
}

/// A temperature record in hundredths of a degree Celsius.
fn centi_degrees(record: &Record) -> (res: Option<i16>)
    ensures
        res == temperature_reading(record.deep_view()),
{
    let celsius: bool = match &record.unit {
        Some(u) => text::same(u.as_str(), "Cel"),
        None => false,
    };
    if !celsius {
        return None;
    }
    match scaled(record, Some(2)) {
        Some(v) => if i16::MIN as i64 <= v && v <= i16::MAX as i64 {
            Some(v as i16)
        } else {
            None
        },
        None => None,
    }
}

/// The shift of a record that is read as a number.
fn record_shift(record: &Record) -> (res: Option<u32>)
    ensures
        match shift_of(record.deep_view()) {
            Some(exp) => res is Some && res->0 == exp,
            None => res is None,
        },
{
    let name = record.name.as_str();
    if text::same(name, "ac/total_power") || text::same(name, "ac/l1/voltage") || text::same(
        name,
        "ac/l1/current",
    ) || text::same(name, "ac/frequency") || text::same(name, "energy/total") {
        return milli_shift(&record.unit);
    }
    match &record.unit {
        Some(u) => if text::same(name, "device/temperature") && text::same(u.as_str(), "Cel") {
            Some(2)
        } else {
            None
        },
        None => None,
    }
}

/// The names and literals of the records that `PvSnapshot::apply_pack` skips
/// because their number is not a plain decimal, or out of range.
pub fn unscaled_records(pack: &Pack) -> (res: Vec<(String, String)>)
    ensures
        res.deep_view() == bad_literals(pack.deep_view().records),
{
    let ghost all = pack.deep_view().records;
    let mut found: Vec<(String, String)> = Vec::new();
    let mut i: usize = 0;
    assert(all.take(0) == Seq::<RecordView>::empty());
    assert(found.deep_view() == Seq::<(Seq<char>, Seq<char>)>::empty());
    while i < pack.records.len()
        invariant
            i <= pack.records.len(),
            all == pack.deep_view().records,
            found.deep_view() == bad_literals(all.take(i as int)),
        decreases pack.records.len() - i,
    {
        let record = &pack.records[i];
        let ghost before = found.deep_view();
        proof {
            assert(all.take(i + 1).drop_last() == all.take(i as int));
            assert(all.take(i + 1).last() == record.deep_view());
        }
        if let (Some(exp), Value::Number(literal)) = (record_shift(record), &record.value) {
            if senml::scale_decimal(literal.as_str(), exp).is_none() {
                let entry = (record.name.as_str().to_owned(), literal.as_str().to_owned());
                let ghost view = entry.deep_view();
                found.push(entry);
                assert(found.deep_view() == before.push(view));
            }
        }
        i = i + 1;
    }
    assert(all.take(all.len() as int) == all);
    found
}

/// The nameplate ratings of the AC lines, added up as `i64` adds.
pub open spec fn total_rating(ratings: Seq<(Seq<char>, u32)>) -> i64
    decreases ratings.len(),
{
    if ratings.len() == 0 {
        0
    } else {
        total_rating(ratings.drop_last()).wrapping_add(ratings.last().1 as i64)
    }
}

/// The fields of the `info` document that are read, in the order of the array
/// form.
pub open spec fn info_fields() -> Seq<Seq<char>> {
    seq![
        "schema"@,
        "serial"@,
        "name"@,
        "device_model"@,
        "lines"@,
        "strings"@,
        "max_power_watts"@,
    ]
}

/// The `info` document as it stands in the payload.
#[derive(Debug, Clone, PartialEq, Eq)]
pub struct RawInfo {
    /// Version of the publisher's topics.
    pub schema: Option<u32>,
    pub serial: Option<u64>,
    pub name: Option<String>,
    pub device_model: Option<String>,
    pub lines: Option<u32>,
    pub strings: Option<u32>,
    /// Nameplate ratings by AC line.
    pub max_power_watts: Option<Vec<(String, u32)>>,
}

pub struct RawInfoView {
    pub schema: Option<u32>,
    pub serial: Option<u64>,
    pub name: Option<Seq<char>>,
    pub device_model: Option<Seq<char>>,
    pub lines: Option<u32>,
    pub strings: Option<u32>,
    pub max_power_watts: Option<Seq<(Seq<char>, u32)>>,
}

impl DeepView for RawInfo {
    type V = RawInfoView;

    open spec fn deep_view(&self) -> RawInfoView {
        RawInfoView {
            schema: self.schema,
            serial: self.serial,
            name: self.name.deep_view(),
            device_model: self.device_model.deep_view(),
            lines: self.lines,
            strings: self.strings,
            max_power_watts: self.max_power_watts.deep_view(),
        }
    }
}

/// The `info` document that a payload holds; `None` where it is no structure or
/// a field is of another type.
pub open spec fn raw_info(payload: Seq<u8>) -> Option<RawInfoView> {
    match json::structure(payload, info_fields()) {
        Some(fields) => {
            let schema = json::u32_field(fields[0]);
            let serial = json::u64_field(fields[1]);
            let name = json::text_field(fields[2]);
            let device_model = json::text_field(fields[3]);
            let lines = json::u32_field(fields[4]);
            let strings = json::u32_field(fields[5]);
            let max_power_watts = json::u32_members_field(fields[6]);
            if schema is Some && serial is Some && name is Some && device_model is Some && lines
                is Some && strings is Some && max_power_watts is Some {
                Some(
                    RawInfoView {
                        schema: schema->0,
                        serial: serial->0,
                        name: name->0,
                        device_model: device_model->0,
                        lines: lines->0,
                        strings: strings->0,
                        max_power_watts: max_power_watts->0,
                    },
                )
            } else {
                None
            }
        },
        None => None,
    }
}

/// The inverter's identity, from the retained `info` document. Each field may
/// be missing.
#[derive(Debug, Clone, PartialEq, Eq)]
pub struct InverterInfo {
    pub serial: Option<u64>,
    /// The name that its owner gave it, such as `SunMonkey`.
    pub name: Option<String>,
    /// The hardware model, such as `SB5000TL-21`.
    pub device_model: Option<String>,
    pub lines: Option<u32>,
    pub strings: Option<u32>,
    /// Nameplate AC power rating of all lines together, watts.
    pub max_power_w: Option<i64>,
}

pub struct InverterInfoView {
    pub serial: Option<u64>,
    pub name: Option<Seq<char>>,
    pub device_model: Option<Seq<char>>,
    pub lines: Option<u32>,
    pub strings: Option<u32>,
    pub max_power_w: Option<i64>,
}

impl DeepView for InverterInfo {
    type V = InverterInfoView;

    open spec fn deep_view(&self) -> InverterInfoView {
        InverterInfoView {
            serial: self.serial,
            name: self.name.deep_view(),
            device_model: self.device_model.deep_view(),
            lines: self.lines,
            strings: self.strings,
            max_power_w: self.max_power_w,
        }
    }
}

impl Default for InverterInfo {
    fn default() -> (res: Self)
        ensures
            res.deep_view() == (InverterInfoView {
                serial: None,
                name: None,
                device_model: None,
                lines: None,
                strings: None,
                max_power_w: None,
            }),
    {
        InverterInfo {
            serial: None,
            name: None,
            device_model: None,
            lines: None,
            strings: None,
            max_power_w: None,
        }
    }
}

/// The identity that an `info` document gives. Its schema does not matter: a
/// document of a later one is read for the fields that are known.
pub open spec fn identity(raw: RawInfoView) -> InverterInfoView {
    InverterInfoView {
        serial: raw.serial,
        name: raw.name,
        device_model: raw.device_model,
        lines: raw.lines,
        strings: raw.strings,
        max_power_w: match raw.max_power_watts {
            Some(ratings) => Some(total_rating(ratings)),
            None => None,
        },
    }
}

fn add_ratings(ratings: &Vec<(String, u32)>) -> (res: i64)
    ensures
        res == total_rating(ratings.deep_view()),
{
    let ghost all = ratings.deep_view();
    let mut total: i64 = 0;
    let mut i: usize = 0;
    while i < ratings.len()
        invariant
            i <= ratings.len(),
            all == ratings.deep_view(),
            total == total_rating(all.take(i as int)),
        decreases ratings.len() - i,
    {
        assert(all.take(i + 1).drop_last() == all.take(i as int));
        assert(all.take(i + 1).last() == all[i as int]);
        total = total.wrapping_add(ratings[i].1 as i64);
        i = i + 1;
    }
    assert(all.take(ratings.len() as int) == all);
    total
}

fn read_info(payload: &[u8]) -> (res: Result<RawInfo, serde_json::Error>)
    ensures
        match res {
            Ok(raw) => raw_info(payload@) == Some(raw.deep_view()),
            Err(_) => raw_info(payload@) is None,
        },
{
    let names: Vec<&str> = vec![
        "schema",
        "serial",
        "name",
        "device_model",
        "lines",
        "strings",
        "max_power_watts",
    ];
    assert(names.deep_view() == info_fields());
    let whole = json::Span { start: 0, end: payload.len() };
    assert(whole.text(payload@) == payload@);
    let json::Structure { fields, fault } = json::read_structure(payload, whole, "Raw", &names);
    let mut first: Option<json::Fault> = fault;
    let schema = json::settle(
        json::read_u32_field(payload, fields[0]),
        fields[0],
        &mut first,
    );
    let serial = json::settle(
        json::read_u64_field(payload, fields[1]),
        fields[1],
        &mut first,
    );
    let name = json::settle(
        json::read_text_field(payload, fields[2]),
        fields[2],
        &mut first,
    );
    let device_model = json::settle(
        json::read_text_field(payload, fields[3]),
        fields[3],
        &mut first,
    );
    let lines = json::settle(
        json::read_u32_field(payload, fields[4]),
        fields[4],
        &mut first,
    );
    let strings = json::settle(
        json::read_u32_field(payload, fields[5]),
        fields[5],
        &mut first,
    );
    let max_power_watts = json::settle(
        json::read_u32_members_field(payload, fields[6]),
        fields[6],
        &mut first,
    );
    match first {
        Some(fault) => Err(fault.error),
        None => Ok(
            RawInfo { schema, serial, name, device_model, lines, strings, max_power_watts },
        ),
    }
}

/// The version of the publisher's topics that is known here.
pub const KNOWN_SCHEMA: u32 = 1;

/// A schema that is given and not the known one.
pub open spec fn other_schema(raw: RawInfoView) -> Option<u32> {
    if raw.schema is Some && raw.schema != Some(KNOWN_SCHEMA) {
        raw.schema
    } else {
        None
    }
}

impl RawInfo {
    /// The document's schema where it is not the known one: then only the fields
    /// that are known have been mapped.
    pub fn unknown_schema(&self) -> (res: Option<u32>)
        ensures
            res == other_schema(self.deep_view()),
    {
        match self.schema {
            Some(schema) => if schema != KNOWN_SCHEMA {
                Some(schema)
            } else {
                None
            },
            None => None,
        }
    }
}

impl InverterInfo {
    /// The schema of an `info` payload where it is not the known one.
    pub fn unknown_schema(payload: &[u8]) -> (res: Option<u32>)
        ensures
            res == match raw_info(payload@) {
                Some(raw) => other_schema(raw),
                None => None,
            },
    {
        match read_info(payload) {
            Ok(raw) => raw.unknown_schema(),
            Err(_) => None,
        }
    }

    /// The identity that an `info` document gives. The ratings of the AC lines
    /// are added up.
    pub fn from_raw(raw: RawInfo) -> (res: Self)
        ensures
            res.deep_view() == identity(raw.deep_view()),
    {
        let max_power_w: Option<i64> = match &raw.max_power_watts {
            Some(ratings) => Some(add_ratings(ratings)),
            None => None,
        };
        InverterInfo {
            serial: raw.serial,
            name: raw.name,
            device_model: raw.device_model,
            lines: raw.lines,
            strings: raw.strings,
            max_power_w,
        }
    }

    /// Parses the retained `info` payload. Other members than the known ones
    /// are ignored.
    pub fn parse(payload: &[u8]) -> (res: Result<Self, serde_json::Error>)
        ensures
            match res {
                Ok(info) => raw_info(payload@) is Some && info.deep_view() == identity(
                    raw_info(payload@)->0,
                ),
                Err(_) => raw_info(payload@) is None,
            },
    {
        Ok(InverterInfo::from_raw(read_info(payload)?))
    }
}

/// One message of the publisher, whatever carried it.
#[derive(Debug, Clone, PartialEq)]
pub enum DomainMsg {
    Info(InverterInfo),
    Pack(Pack),
    Status(LinkStatus),
}

pub enum DomainMsgView {
    Info(InverterInfoView),
    Pack(PackView),
    Status(LinkStatus),
}

impl DomainMsgView {
    /// Whether the times that the message carries are in range.
    pub open spec fn times_fit(self) -> bool {
        match self {
            DomainMsgView::Pack(pack) => energy_times_fit(pack),
            _ => true,
        }
    }
}

impl DeepView for DomainMsg {
    type V = DomainMsgView;

    open spec fn deep_view(&self) -> DomainMsgView {
        match self {
            DomainMsg::Info(info) => DomainMsgView::Info(info.deep_view()),
            DomainMsg::Pack(pack) => DomainMsgView::Pack(pack.deep_view()),
            DomainMsg::Status(status) => DomainMsgView::Status(*status),
        }
    }
}

impl DomainMsg {
    /// Whether the times that the message carries are in range, as `State::apply`
    /// needs them to be.
    pub fn times_in_range(&self) -> (res: bool)
        ensures
            res == self.deep_view().times_fit(),
    {
        match self {
            DomainMsg::Pack(pack) => {
                let ghost view = pack.deep_view();
                let mut i: usize = 0;
                while i < pack.records.len()
                    invariant
                        i <= pack.records.len(),
                        view == pack.deep_view(),
                        self.deep_view() == DomainMsgView::Pack(view),
                        view.records.len() == pack.records.len(),
                        forall|j: int|
                            0 <= j < i && (#[trigger] view.records[j]).name == "energy/total"@
                                && milli_reading(view.records[j]) is Some ==> i64::MIN
                                <= view.base_time + view.records[j].time_offset <= i64::MAX,
                    decreases pack.records.len() - i,
                {
                    let record = &pack.records[i];
                    assert(view.records[i as int] == record.deep_view());
                    if text::same(record.name.as_str(), "energy/total") && scaled(
                        record,
                        milli_shift(&record.unit),
                    ).is_some() && pack.base_time.checked_add(record.time_offset).is_none() {
                        return false;
                    }
                    i = i + 1;
                }
                true
            },
            DomainMsg::Info(_) => true,
            DomainMsg::Status(_) => true,
        }
    }
}

/// The snapshot and the identity that the messages so far have left.
#[derive(Debug, Clone)]
pub struct State {
    pub snapshot: PvSnapshot,
    pub info: Option<InverterInfo>,
}

pub struct StateView {
    pub snapshot: PvSnapshot,
    pub info: Option<InverterInfoView>,
}

impl DeepView for State {
    type V = StateView;

    open spec fn deep_view(&self) -> StateView {
        StateView { snapshot: self.snapshot, info: self.info.deep_view() }
    }
}

impl StateView {
    pub open spec fn blank() -> StateView {
        StateView { snapshot: PvSnapshot::blank(), info: None }
    }

    /// After one more message.
    pub open spec fn after(self, msg: DomainMsgView) -> StateView {
        match msg {
            DomainMsgView::Info(info) => StateView {
                snapshot: PvSnapshot { max_power_w: info.max_power_w, ..self.snapshot },
                info: Some(info),
            },
            DomainMsgView::Pack(pack) => StateView {
                snapshot: self.snapshot.after_pack(pack),
                info: self.info,
            },
            DomainMsgView::Status(status) => StateView {
                snapshot: self.snapshot.after_status(status),
                info: self.info,
            },
        }
    }

    /// After a history of messages.
    pub open spec fn after_all(self, msgs: Seq<DomainMsgView>) -> StateView
        decreases msgs.len(),
    {
        if msgs.len() == 0 {
            self
        } else {
            self.after_all(msgs.drop_last()).after(msgs.last())
        }
    }
}

impl Default for State {
    fn default() -> (res: Self)
        ensures
            res.deep_view() == StateView::blank(),
    {
        State { snapshot: PvSnapshot::default(), info: None }
    }
}

impl State {
    /// Folds one message in. The nameplate rating goes into the snapshot too:
    /// it is the one part of the identity that a cluster is read from.
    pub fn apply(&mut self, msg: DomainMsg)
        requires
            msg.deep_view().times_fit(),
        ensures
            final(self).deep_view() == old(self).deep_view().after(msg.deep_view()),
    {
        match msg {
            DomainMsg::Info(info) => {
                self.snapshot.max_power_w = info.max_power_w;
                self.info = Some(info);
            },
            DomainMsg::Pack(pack) => {
                self.snapshot.apply_pack(&pack);
            },
            DomainMsg::Status(status) => {
                self.snapshot.set_status(status);
            },
        }
    }
}

} // verus!
