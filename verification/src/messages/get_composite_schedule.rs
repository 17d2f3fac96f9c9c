//! The GetCompositeSchedule request/response pair.

use vstd::prelude::*;

use crate::types::charging_schedule::ChargingSchedule;
use crate::types::datetime::UtcTimestamp;
use crate::types::enumerations::ChargingRateUnitType;
use crate::types::enumerations::GetCompositeScheduleStatus;

verus! {

/// GetCompositeSchedule.req PDU sent by the central system to the charge
/// point.
#[derive(Debug)]
pub struct GetCompositeScheduleReq {
    /// The id of the connector for which the schedule is requested. When
    /// connectorId = 0, the charge point will calculate the expected
    /// consumption for the grid connection.
    pub connector_id: usize,
    /// Time in seconds. Length of the requested schedule.
    pub duration: usize,
    /// Can be used to force a power or current profile.
    pub charging_rate_unit: Option<ChargingRateUnitType>,
}

/// GetCompositeSchedule.conf PDU sent by the charge point to the central
/// system in response to a GetCompositeSchedule.req PDU.
#[derive(Debug)]
pub struct GetCompositeScheduleConf {
    /// Status of the request. The charge point will indicate if it was able
    /// to process the request.
    pub status: GetCompositeScheduleStatus,
    /// The charging schedule contained in this notification applies to a
    /// connector.
    pub connector_id: Option<usize>,
    /// Time. Periods contained in the charging profile are relative to this
    /// point in time.
    pub schedule_start: Option<UtcTimestamp>,
    /// Planned composite charging schedule, the energy consumption over
    /// time. Always relative to scheduleStart.
    pub charging_schedule: Option<ChargingSchedule>,
}

} // verus!
