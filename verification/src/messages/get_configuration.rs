//! The GetConfiguration request/response pair.

use vstd::prelude::*;

use crate::types::bounded::CiString50Type;
use crate::types::configuration::KeyValue;

verus! {

/// GetConfiguration.req PDU sent by the central system to the charge point.
#[derive(Debug)]
pub struct GetConfigurationReq {
    /// List of keys for which the configuration value is required.
    pub key: Option<Vec<CiString50Type>>,
}

/// GetConfiguration.conf PDU sent by the charge point to the central system
/// in response to a GetConfiguration.req.
#[derive(Debug)]
pub struct GetConfigurationConf {
    /// List of requested or known keys.
    pub configuration_key: Option<Vec<KeyValue>>,
    /// Requested keys that are unknown.
    pub unknown_key: Option<Vec<CiString50Type>>,
}

} // verus!
