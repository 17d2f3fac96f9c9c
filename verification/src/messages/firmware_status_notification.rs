//! The FirmwareStatusNotification request.

use vstd::prelude::*;

use crate::types::enumerations::FirmwareStatus;

verus! {

/// FirmwareStatusNotification.req PDU sent by the charge point to the
/// central system.
#[derive(Debug)]
pub struct FirmwareStatusNotificationReq {
    /// This contains the progress status of the firmware installation.
    pub status: FirmwareStatus,
}

} // verus!
