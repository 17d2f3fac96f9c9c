//! Meter values: sampled measurements taken by a charge point.

use vstd::prelude::*;

use crate::types::datetime::UtcTimestamp;
use crate::types::enumerations::Location;
use crate::types::enumerations::Measurand;
use crate::types::enumerations::Phase;
use crate::types::enumerations::ReadingContext;
use crate::types::enumerations::UnitOfMeasure;
use crate::types::enumerations::ValueFormat;

verus! {

/// A collection of one or more sampled values, all taken at the same point
/// in time.
#[derive(Debug)]
pub struct MeterValues {
    /// Timestamp for the measured value(s).
    pub timestamp: UtcTimestamp,
    /// One or more measured values.
    pub sampled_value: Vec<SampledValue>,
}

/// A single sampled value, with optional annotations that say how to read
/// it.
#[derive(Debug)]
pub struct SampledValue {
    /// Value as a "Raw" (decimal) number or "SignedData". The field type is
    /// "string" to allow for digitally signed data readings. Decimal
    /// numeric values are acceptable to allow fractional values for
    /// measurands such as temperature and current.
    pub value: String,
    /// Type of detail value: start, end or sample.
    /// Default = "Sample.Periodic".
    pub context: Option<ReadingContext>,
    /// Raw or signed data. Default = "Raw".
    pub format: Option<ValueFormat>,
    /// Type of measurement. Default = "Energy.Active.Import.Register".
    pub measurand: Option<Measurand>,
    /// Indicates how the measured value is to be interpreted, for instance
    /// between L1 and neutral (L1-N). Please note that not all values of
    /// phase are applicable to all measurands. When phase is absent, the
    /// measured value is interpreted as an overall value.
    pub phase: Option<Phase>,
    /// Location of the measurement. Default = "Outlet".
    pub location: Option<Location>,
    /// Unit of the value. Default = "Wh" if the (default) measurand is an
    /// "Energy" type.
    pub unit: Option<UnitOfMeasure>,
}

} // verus!
