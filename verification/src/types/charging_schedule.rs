//! The charging schedule: the amount of power or current that can be
//! delivered per time interval.

use vstd::prelude::*;

use crate::types::charging_schedule_period::ChargingRate;
use crate::types::charging_schedule_period::ChargingSchedulePeriod;
use crate::types::datetime::UtcTimestamp;
use crate::types::enumerations::ChargingRateUnitType;

verus! {

/// Limits for the available power or current over time.
#[derive(Debug)]
pub struct ChargingSchedule {
    /// Duration of the charging schedule in seconds. If the duration is
    /// absent, the last period will continue indefinitely, or until the end
    /// of the transaction in case startSchedule is absent.
    pub duration: Option<usize>,
    /// Starting point of an absolute schedule. If absent, the schedule will
    /// be relative to the start of charging.
    pub start_schedule: Option<UtcTimestamp>,
    /// The unit of measure the limits are expressed in.
    pub charging_rate_unit: ChargingRateUnitType,
    /// List of period elements defining maximum power or current usage over
    /// time.
    pub charging_schedule_period: Vec<ChargingSchedulePeriod>,
    /// Minimum charging rate supported by the electric vehicle. The unit of
    /// measure is defined by chargingRateUnit. This parameter is intended
    /// to be used by a local smart charging algorithm to optimize the power
    /// allocation in case a charging process is inefficient at lower
    /// charging rates.
    pub min_charging_rate: Option<ChargingRate>,
}

} // verus!
