//! The BootNotification request/response pair.

use vstd::prelude::*;

use crate::types::bounded::CiString20Type;
use crate::types::bounded::CiString25Type;
use crate::types::bounded::CiString50Type;
use crate::types::datetime::UtcTimestamp;
use crate::types::enumerations::RegistrationStatus;

verus! {

/// BootNotification.req PDU sent by the charge point to the central system.
#[derive(Debug)]
pub struct BootNotificationReq {
    /// This contains a value that identifies the serial number of the
    /// charge box inside the charge point. Deprecated, will be removed in a
    /// future version.
    pub charge_box_serial_number: Option<CiString25Type>,
    /// This contains a value that identifies the model of the charge point.
    pub charge_point_model: CiString20Type,
    /// This contains a value that identifies the serial number of the
    /// charge point.
    pub charge_point_serial_number: Option<CiString25Type>,
    /// This contains a value that identifies the vendor of the charge
    /// point.
    pub charge_point_vendor: CiString20Type,
    /// This contains the firmware version of the charge point.
    pub firmware_version: Option<CiString50Type>,
    /// This contains the ICCID of the modem's SIM card.
    pub iccid: Option<CiString20Type>,
    /// This contains the IMSI of the modem's SIM card.
    pub imsi: Option<CiString20Type>,
    /// This contains the serial number of the main power meter of the
    /// charge point.
    pub meter_serial_number: Option<CiString25Type>,
    /// This contains the type of the main power meter of the charge point.
    pub meter_type: Option<CiString25Type>,
}

/// BootNotification.conf PDU sent by the central system to the charge point
/// in response to a BootNotification.req PDU.
#[derive(Debug)]
pub struct BootNotificationConf {
    /// This contains the central system's current time.
    pub current_time: UtcTimestamp,
    /// The heartbeat interval in seconds.
    pub interval: usize,
    /// Whether the charge point has been registered.
    pub status: RegistrationStatus,
}

} // verus!
