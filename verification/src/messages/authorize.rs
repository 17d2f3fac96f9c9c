//! The Authorize request/response pair.

use vstd::prelude::*;

use crate::types::authorization::IdTagInfo;
use crate::types::id_token::IdToken;

verus! {

/// Authorize.req PDU sent by the charge point to the central system.
#[derive(Debug)]
pub struct AuthorizeReq {
    /// This contains the identifier that needs to be authorized.
    pub id_tag: IdToken,
}

/// Authorize.conf PDU sent by the central system to the charge point in
/// response to an Authorize.req PDU.
#[derive(Debug)]
pub struct AuthorizeConf {
    /// This contains information about authorization status, expiry and
    /// parent id.
    pub id_tag_info: IdTagInfo,
}

} // verus!
