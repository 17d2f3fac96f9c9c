//! The CancelReservation request/response pair.

use vstd::prelude::*;

use crate::types::enumerations::CancelReservationStatus;

verus! {

/// CancelReservation.req PDU sent by the central system to the charge
/// point.
#[derive(Debug)]
pub struct CancelReservationReq {
    /// Id of the reservation to cancel.
    pub reservation_id: usize,
}

/// CancelReservation.conf PDU sent by the charge point to the central
/// system in response to a CancelReservation.req PDU.
#[derive(Debug)]
pub struct CancelReservationConf {
    /// This indicates the success or failure of the cancelling of a
    /// reservation by the central system.
    pub status: CancelReservationStatus,
}

} // verus!
