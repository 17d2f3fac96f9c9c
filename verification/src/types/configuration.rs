//! Configuration entries as returned in GetConfiguration.conf.

use vstd::prelude::*;

use crate::types::bounded::CiString50Type;
use crate::types::bounded::CiString500Type;

verus! {

/// Information about a specific configuration key. It is returned in
/// GetConfiguration.conf.
#[derive(Debug)]
pub struct KeyValue {
    /// The configuration key.
    pub key: CiString50Type,
    /// False if the value can be set with the ChangeConfiguration message.
    pub readonly: bool,
    /// If the key is known but not set, this field may be absent.
    pub value: Option<CiString500Type>,
}

} // verus!
