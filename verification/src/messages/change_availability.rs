//! The ChangeAvailability request/response pair.

use vstd::prelude::*;

use crate::types::enumerations::AvailabilityStatus;
use crate::types::enumerations::AvailabilityType;

verus! {

/// ChangeAvailability.req PDU sent by the central system to the charge
/// point.
#[derive(Debug)]
pub struct ChangeAvailabilityReq {
    /// The id of the connector for which availability needs to change.
    /// Id '0' (zero) is used if the availability of the charge point and
    /// all its connectors needs to change.
    pub connector_id: usize,
    /// This contains the type of availability change that the charge point
    /// should perform.
    pub availability_type: AvailabilityType,
}

/// ChangeAvailability.conf PDU returned by the charge point to the central
/// system.
#[derive(Debug)]
pub struct ChangeAvailabilityConf {
    /// This indicates whether the charge point is able to perform the
    /// availability change.
    pub status: AvailabilityStatus,
}

} // verus!
