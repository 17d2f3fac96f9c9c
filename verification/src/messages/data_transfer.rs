//! The DataTransfer request/response pair.

use vstd::prelude::*;

use crate::types::bounded::CiString255Type;
use crate::types::bounded::CiString50Type;
use crate::types::enumerations::DataTransferStatus;

verus! {

/// DataTransfer.req PDU sent either by the central system to the charge
/// point or vice versa.
#[derive(Debug)]
pub struct DataTransferReq<'a> {
    /// This identifies the vendor-specific implementation.
    pub vendor_id: CiString255Type,
    /// Additional identification field.
    pub message_id: Option<CiString50Type>,
    /// Data without specified length or format.
    pub data: Option<&'a [u8]>,
}

/// DataTransfer.conf PDU sent by the charge point to the central system or
/// vice versa in response to a DataTransfer.req PDU.
#[derive(Debug)]
pub struct DataTransferConf<'a> {
    /// This indicates the success or failure of the data transfer.
    pub status: DataTransferStatus,
    /// Data in response to the request.
    pub data: Option<&'a [u8]>,
}

} // verus!
