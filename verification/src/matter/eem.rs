//! Electrical Energy Measurement: the inverter's lifetime export counter.
use vstd::prelude::*;

use crate::domain::PvSnapshot;
use crate::matter::accuracy::{AccuracyRange, AccuracyRow, MeasurementType};

verus! {

/// The envelope of the counter, milliwatt-hours.
pub const ENERGY_MIN_MWH: i64 = 0;

pub const ENERGY_MAX_MWH: i64 = 1_000_000_000_000;

/// The counter's largest error: a kilowatt-hour, in milliwatt-hours.
pub const ENERGY_ACCURACY_MWH: u64 = 1_000_000;

/// Unix time of the Matter epoch, the start of the year 2000.
pub const MATTER_EPOCH_SECS: i64 = 946_684_800;

/// A unix time as seconds since the Matter epoch, where 32 bits hold it.
pub open spec fn epoch_seconds(unix_s: int) -> Option<u32> {
    if 0 <= unix_s - MATTER_EPOCH_SECS <= u32::MAX {
        Some((unix_s - MATTER_EPOCH_SECS) as u32)
    } else {
        None
    }
}

/// Rebases a unix time onto the Matter epoch. An instant that cannot be
/// represented is dropped, not wrapped.
pub fn to_epoch_s(unix_s: i64) -> (res: Option<u32>)
    ensures
        res == epoch_seconds(unix_s as int),
{
    let since: i64 = unix_s.checked_sub(MATTER_EPOCH_SECS)?;
    if 0 <= since && since <= u32::MAX as i64 {
        Some(since as u32)
    } else {
        None
    }
}

/// An `EnergyMeasurementStruct`. Of a lifetime counter neither the start nor
/// system times are known: those fields stay absent.
#[derive(Debug, Clone, Copy, PartialEq, Eq, Structural)]
pub struct EnergyMeasurement {
    /// Milliwatt-hours.
    pub energy: i64,
    /// Seconds since the Matter epoch.
    pub end_timestamp: Option<u32>,
}

/// The measurement of an energy and the unix time at which it was taken.
pub open spec fn measured_energy(energy_mwh: i64, end_unix_s: Option<i64>) -> EnergyMeasurement {
    EnergyMeasurement {
        energy: energy_mwh,
        end_timestamp: match end_unix_s {
            Some(unix_s) => epoch_seconds(unix_s as int),
            None => None,
        },
    }
}

/// What both the attribute and the event carry.
pub fn energy_measurement(energy_mwh: i64, end_unix_s: Option<i64>) -> (res: EnergyMeasurement)
    ensures
        res == measured_energy(energy_mwh, end_unix_s),
{
    let end_timestamp: Option<u32> = match end_unix_s {
        Some(unix_s) => to_epoch_s(unix_s),
        None => None,
    };
    EnergyMeasurement { energy: energy_mwh, end_timestamp }
}

/// The counter of a snapshot, where it is known.
pub open spec fn exported_energy(snapshot: PvSnapshot) -> Option<EnergyMeasurement> {
    match snapshot.energy_total_mwh {
        Some(mwh) => Some(measured_energy(mwh, snapshot.energy_end_ts)),
        None => None,
    }
}

/// `CumulativeEnergyExported`.
pub fn cumulative_energy_exported(snapshot: &PvSnapshot) -> (res: Option<EnergyMeasurement>)
    ensures
        res == exported_energy(*snapshot),
{
    match snapshot.energy_total_mwh {
        Some(mwh) => Some(energy_measurement(mwh, snapshot.energy_end_ts)),
        None => None,
    }
}

/// `Accuracy`: measured, to a fixed error over the whole envelope.
pub fn accuracy() -> (res: AccuracyRow)
    ensures
        res == (AccuracyRow {
            measurement_type: MeasurementType::ElectricalEnergy,
            measured: true,
            min: ENERGY_MIN_MWH,
            max: ENERGY_MAX_MWH,
            range: AccuracyRange {
                min: ENERGY_MIN_MWH,
                max: ENERGY_MAX_MWH,
                percent_max: None,
                fixed_max: Some(ENERGY_ACCURACY_MWH),
            },
        }),
{
    AccuracyRow {
        measurement_type: MeasurementType::ElectricalEnergy,
        measured: true,
        min: ENERGY_MIN_MWH,
        max: ENERGY_MAX_MWH,
        range: AccuracyRange {
            min: ENERGY_MIN_MWH,
            max: ENERGY_MAX_MWH,
            percent_max: None,
            fixed_max: Some(ENERGY_ACCURACY_MWH),
        },
    }
}

} // verus!
