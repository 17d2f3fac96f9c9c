//! The ClearCache response.

use vstd::prelude::*;

use crate::types::enumerations::ClearCacheStatus;

verus! {

/// ClearCache.conf PDU sent by the charge point to the central system.
#[derive(Debug)]
pub struct ClearCacheConf {
    /// Accepted if the charge point has executed the request, otherwise
    /// rejected.
    pub status: ClearCacheStatus,
}

} // verus!
