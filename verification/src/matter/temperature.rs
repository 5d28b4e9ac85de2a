//! Temperature Measurement: the inverter's internal temperature.
use vstd::prelude::*;

use crate::domain::PvSnapshot;

verus! {

/// The advertised sensing envelope, hundredths of a degree Celsius.
pub const TEMP_MIN_CENTI_C: i16 = 0;

pub const TEMP_MAX_CENTI_C: i16 = 8_000;

/// `MeasuredValue`.
pub fn measured_value(snapshot: &PvSnapshot) -> (res: Option<i16>)
    ensures
        res == snapshot.temperature_centi_c,
{
    snapshot.temperature_centi_c
}

/// `MinMeasuredValue`.
pub fn min_measured_value() -> (res: Option<i16>)
    ensures
        res == Some(TEMP_MIN_CENTI_C),
{
    Some(TEMP_MIN_CENTI_C)
}

/// `MaxMeasuredValue`.
pub fn max_measured_value() -> (res: Option<i16>)
    ensures
        res == Some(TEMP_MAX_CENTI_C),
{
    Some(TEMP_MAX_CENTI_C)
}

} // verus!
