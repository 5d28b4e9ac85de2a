//! Electrical Power Measurement: the AC connection point of the inverter.
//!
//! Positive means imported into the server, so that a producing inverter
//! reports negative ActivePower and ActiveCurrent. The snapshot holds
//! production as positive; the sign changes here.
use vstd::prelude::*;

use crate::domain::PvSnapshot;
use crate::matter::accuracy::{AccuracyRange, AccuracyRow, MeasurementType};
use crate::matter::list;
use crate::matter::list::{ConstraintError, ListRead};

verus! {

/// One percent, in hundredths of a percent.
pub const PERCENT_MAX: u16 = 100;

/// Nominal mains frequency, millihertz.
pub const MAINS_FREQUENCY_MHZ: i64 = 50_000;

/// Half the width of the Frequency envelope, millihertz.
pub const FREQUENCY_TOLERANCE_MHZ: i64 = 5_000;

/// Nominal mains voltage, millivolts.
pub const NOMINAL_MAINS_VOLTAGE_MV: i64 = 230_000;

/// Half the width of the Voltage envelope, millivolts.
pub const VOLTAGE_TOLERANCE_MV: i64 = 45_000;

/// Low end of the Voltage envelope, and the divisor of the current bound.
pub const VOLTAGE_MIN_MV: i64 = NOMINAL_MAINS_VOLTAGE_MV - VOLTAGE_TOLERANCE_MV;

/// High end of the Voltage envelope.
pub const VOLTAGE_MAX_MV: i64 = NOMINAL_MAINS_VOLTAGE_MV + VOLTAGE_TOLERANCE_MV;

/// Milliwatts of envelope per nameplate watt: a tenth of headroom.
pub const POWER_HEADROOM_MW_PER_W: i64 = 1_100;

/// How many measurement types the server reports.
pub const MEASUREMENT_TYPES: usize = 4;

/// ActivePower bound without a nameplate rating, milliwatts.
pub const DEFAULT_ACTIVE_POWER_MIN_MW: i64 = -30_000_000;

/// ActiveCurrent bound without a nameplate rating, milliamperes.
pub const DEFAULT_ACTIVE_CURRENT_MIN_MA: i64 = -30_000;

/// The quotient without its fraction.
pub open spec fn toward_zero(dividend: int, divisor: int) -> int {
    if dividend >= 0 {
        dividend / divisor
    } else {
        -((-dividend) / divisor)
    }
}

/// Whether the bounds of a rating can be computed in 64 bits.
pub open spec fn rating_fits(max_power_w: Option<i64>) -> bool {
    match max_power_w {
        Some(w) => i64::MIN <= w * POWER_HEADROOM_MW_PER_W * 1_000 <= i64::MAX,
        None => true,
    }
}

/// The least ActivePower, milliwatts.
pub open spec fn power_min(max_power_w: Option<i64>) -> int {
    match max_power_w {
        Some(w) => -(w * POWER_HEADROOM_MW_PER_W),
        None => DEFAULT_ACTIVE_POWER_MIN_MW as int,
    }
}

/// The least ActiveCurrent, milliamperes: the power bound at the least voltage.
pub open spec fn current_min(max_power_w: Option<i64>) -> int {
    match max_power_w {
        Some(w) => -toward_zero(w * POWER_HEADROOM_MW_PER_W * 1_000, VOLTAGE_MIN_MV as int),
        None => DEFAULT_ACTIVE_CURRENT_MIN_MA as int,
    }
}

/// Whether the bounds of a rating can be computed in 64 bits.
pub fn rating_in_range(max_power_w: Option<i64>) -> (res: bool)
    ensures
        res == rating_fits(max_power_w),
{
    match max_power_w {
        Some(w) => {
            let scaled: i128 = w as i128 * 1_100_000;
            -0x8000_0000_0000_0000 <= scaled && scaled <= 0x7fff_ffff_ffff_ffff
        },
        None => true,
    }
}

fn divide(dividend: i64, divisor: i64) -> (res: i64)
    requires
        divisor > 0,
    ensures
        res == toward_zero(dividend as int, divisor as int),
{
    dividend / divisor
}

/// The lower bounds of ActivePower (milliwatts) and ActiveCurrent
/// (milliamperes) for a nameplate rating in watts. Production is negative.
pub fn active_power_current_min(max_power_w: Option<i64>) -> (res: (i64, i64))
    requires
        rating_fits(max_power_w),
    ensures
        res.0 == power_min(max_power_w),
        res.1 == current_min(max_power_w),
{
    match max_power_w {
        Some(w) => {
            let power_mw: i64 = w * POWER_HEADROOM_MW_PER_W;
            let current_ma: i64 = divide(power_mw * 1_000, VOLTAGE_MIN_MV);
            (-power_mw, -current_ma)
        },
        None => (DEFAULT_ACTIVE_POWER_MIN_MW, DEFAULT_ACTIVE_CURRENT_MIN_MA),
    }
}

/// The envelope of one measurement type.
#[derive(Debug, Clone, Copy, PartialEq, Eq, Structural)]
pub struct AccuracyEntry {
    pub measurement_type: MeasurementType,
    pub min: i64,
    pub max: i64,
}

impl AccuracyEntry {
    /// A measured quantity over its whole envelope, to one percent.
    pub open spec fn as_row(self) -> AccuracyRow {
        AccuracyRow {
            measurement_type: self.measurement_type,
            measured: true,
            min: self.min,
            max: self.max,
            range: AccuracyRange {
                min: self.min,
                max: self.max,
                percent_max: Some(PERCENT_MAX),
                fixed_max: None,
            },
        }
    }

    pub fn row(&self) -> (res: AccuracyRow)
        ensures
            res == self.as_row(),
    {
        AccuracyRow {
            measurement_type: self.measurement_type,
            measured: true,
            min: self.min,
            max: self.max,
            range: AccuracyRange {
                min: self.min,
                max: self.max,
                percent_max: Some(PERCENT_MAX),
                fixed_max: None,
            },
        }
    }
}

/// The envelopes of all measurement types. Power and current are sized by the
/// nameplate rating and export only; voltage and frequency bracket the mains.
pub open spec fn envelopes(max_power_w: Option<i64>) -> Seq<AccuracyEntry> {
    seq![
        AccuracyEntry {
            measurement_type: MeasurementType::ActivePower,
            min: power_min(max_power_w) as i64,
            max: 0,
        },
        AccuracyEntry {
            measurement_type: MeasurementType::Voltage,
            min: VOLTAGE_MIN_MV,
            max: VOLTAGE_MAX_MV,
        },
        AccuracyEntry {
            measurement_type: MeasurementType::ActiveCurrent,
            min: current_min(max_power_w) as i64,
            max: 0,
        },
        AccuracyEntry {
            measurement_type: MeasurementType::Frequency,
            min: (MAINS_FREQUENCY_MHZ - FREQUENCY_TOLERANCE_MHZ) as i64,
            max: (MAINS_FREQUENCY_MHZ + FREQUENCY_TOLERANCE_MHZ) as i64,
        },
    ]
}

pub fn accuracy_entries(max_power_w: Option<i64>) -> (res: [AccuracyEntry; MEASUREMENT_TYPES])
    requires
        rating_fits(max_power_w),
    ensures
        res@ == envelopes(max_power_w),
{
    let (power_min, current_min) = active_power_current_min(max_power_w);
    [
        AccuracyEntry {
            measurement_type: MeasurementType::ActivePower,
            min: power_min,
            max: 0,
        },
        AccuracyEntry {
            measurement_type: MeasurementType::Voltage,
            min: VOLTAGE_MIN_MV,
            max: VOLTAGE_MAX_MV,
        },
        AccuracyEntry {
            measurement_type: MeasurementType::ActiveCurrent,
            min: current_min,
            max: 0,
        },
        AccuracyEntry {
            measurement_type: MeasurementType::Frequency,
            min: MAINS_FREQUENCY_MHZ - FREQUENCY_TOLERANCE_MHZ,
            max: MAINS_FREQUENCY_MHZ + FREQUENCY_TOLERANCE_MHZ,
        },
    ]
}

/// The rows of the `Accuracy` attribute.
pub open spec fn accuracy_rows(snapshot: PvSnapshot) -> Seq<AccuracyRow> {
    envelopes(snapshot.max_power_w).map_values(|entry: AccuracyEntry| entry.as_row())
}

/// `Accuracy`: one row for each measurement type.
pub fn accuracy(snapshot: &PvSnapshot, read: ListRead) -> (res: Result<
    Vec<AccuracyRow>,
    ConstraintError,
>)
    requires
        rating_fits(snapshot.max_power_w),
    ensures
        read.answered(accuracy_rows(*snapshot), res),
{
    let entries = accuracy_entries(snapshot.max_power_w);
    let rows: [AccuracyRow; MEASUREMENT_TYPES] = [
        entries[0].row(),
        entries[1].row(),
        entries[2].row(),
        entries[3].row(),
    ];
    assert(rows@ == accuracy_rows(*snapshot));
    list::read_list(rows.as_slice(), read)
}

/// `NumberOfMeasurementTypes`.
pub fn number_of_measurement_types() -> (res: u8)
    ensures
        res == MEASUREMENT_TYPES,
{
    MEASUREMENT_TYPES as u8
}

/// `Voltage`, millivolts.
pub fn voltage(snapshot: &PvSnapshot) -> (res: Option<i64>)
    ensures
        res == snapshot.voltage_mv,
{
    snapshot.voltage_mv
}

/// Production turned into export, where it is known.
pub open spec fn exported(production: Option<i64>) -> Option<i64> {
    match production {
        Some(v) => Some((-v) as i64),
        None => None,
    }
}

fn export(production: Option<i64>) -> (res: Option<i64>)
    requires
        production != Some(i64::MIN),
    ensures
        res == exported(production),
{
    match production {
        Some(v) => Some(-v),
        None => None,
    }
}

/// `ActiveCurrent`, milliamperes: negative while producing.
pub fn active_current(snapshot: &PvSnapshot) -> (res: Option<i64>)
    requires
        snapshot.current_ma != Some(i64::MIN),
    ensures
        res == exported(snapshot.current_ma),
{
    export(snapshot.current_ma)
}

/// `ActivePower`, milliwatts: negative while producing.
pub fn active_power(snapshot: &PvSnapshot) -> (res: Option<i64>)
    requires
        snapshot.power_mw != Some(i64::MIN),
    ensures
        res == exported(snapshot.power_mw),
{
    export(snapshot.power_mw)
}

/// `Frequency`, millihertz.
pub fn frequency(snapshot: &PvSnapshot) -> (res: Option<i64>)
    ensures
        res == snapshot.frequency_mhz,
{
    snapshot.frequency_mhz
}

} // verus!
