//! Rows of the `Accuracy` attributes.
use vstd::prelude::*;

verus! {

/// What a row is about.
#[derive(Debug, Clone, Copy, PartialEq, Eq, Structural)]
pub enum MeasurementType {
    Voltage,
    ActiveCurrent,
    ActivePower,
    Frequency,
    ElectricalEnergy,
}

/// The one range of a row, with its bound on the error.
#[derive(Debug, Clone, Copy, PartialEq, Eq, Structural)]
pub struct AccuracyRange {
    pub min: i64,
    pub max: i64,
    /// Largest relative error, in hundredths of a percent.
    pub percent_max: Option<u16>,
    /// Largest absolute error, in the unit of the range.
    pub fixed_max: Option<u64>,
}

/// A `MeasurementAccuracyStruct`.
#[derive(Debug, Clone, Copy, PartialEq, Eq, Structural)]
pub struct AccuracyRow {
    pub measurement_type: MeasurementType,
    /// Whether the values are measured, as opposed to estimated.
    pub measured: bool,
    pub min: i64,
    pub max: i64,
    pub range: AccuracyRange,
}

} // verus!
