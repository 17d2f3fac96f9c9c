//! The DiagnosticsStatusNotification request.

use vstd::prelude::*;

use crate::types::enumerations::DiagnosticsStatus;

verus! {

/// DiagnosticsStatusNotification.req PDU sent by the charge point to the
/// central system.
#[derive(Debug)]
pub struct DiagnosticsStatusNotificationReq {
    /// This contains the status of the diagnostics upload.
    pub status: DiagnosticsStatus,
}

} // verus!
