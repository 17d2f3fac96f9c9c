//! The ClearChargingProfile request/response pair.

use vstd::prelude::*;

use crate::types::enumerations::ChargingProfilePurposeType;
use crate::types::enumerations::ClearChargingProfileStatus;

verus! {

/// ClearChargingProfile.req PDU sent by the central system to the charge
/// point.
///
/// The central system can use this message to clear (remove) either a
/// specific charging profile (denoted by id) or a selection of charging
/// profiles that match the values of the optional connectorId, stackLevel
/// and chargingProfilePurpose fields.
#[derive(Debug)]
pub struct ClearChargingProfileReq {
    /// The id of the charging profile to clear.
    pub id: Option<usize>,
    /// Specifies the id of the connector for which to clear charging
    /// profiles. A connectorId of zero (0) specifies the charging profile
    /// for the overall charge point. Absence of this parameter means the
    /// clearing applies to all charging profiles that match the other
    /// criteria in the request.
    pub connector_id: Option<usize>,
    /// Specifies the purpose of the charging profiles that will be cleared,
    /// if they meet the other criteria in the request.
    pub charging_profile_purpose: Option<ChargingProfilePurposeType>,
    /// Specifies the stackLevel for which charging profiles will be
    /// cleared, if they meet the other criteria in the request.
    pub stack_level: Option<usize>,
}

/// ClearChargingProfile.conf PDU sent by the charge point to the central
/// system in response to a ClearChargingProfile.req PDU.
#[derive(Debug)]
pub struct ClearChargingProfileConf {
    /// Indicates if the charge point was able to execute the request.
    pub status: ClearChargingProfileStatus,
}

} // verus!
