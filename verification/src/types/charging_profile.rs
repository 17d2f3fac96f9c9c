//! The charging profile: a charging schedule together with the rules that
//! say when and with what precedence it applies.

use vstd::prelude::*;

use crate::types::charging_schedule::ChargingSchedule;
use crate::types::datetime::UtcTimestamp;
use crate::types::enumerations::ChargingProfileKindType;
use crate::types::enumerations::ChargingProfilePurposeType;
use crate::types::enumerations::RecurrencyKindType;

verus! {

/// A charging profile consists of a charging schedule, describing the
/// amount of power or current that can be delivered per time interval.
#[derive(Debug)]
pub struct ChargingProfile {
    /// Unique identifier for this profile.
    pub charging_profile_id: usize,
    /// Only valid if chargingProfilePurpose is set to TxProfile: the
    /// transactionId may be used to match the profile to a specific
    /// transaction.
    pub transaction_id: Option<usize>,
    /// Value determining the level in the hierarchy stack of profiles.
    /// Higher values have precedence over lower values. The lowest level
    /// is 0.
    pub stack_level: usize,
    /// The purpose of the profile.
    pub charging_profile_purpose: ChargingProfilePurposeType,
    /// Indicates the kind of schedule.
    pub charging_profile_kind: ChargingProfileKindType,
    /// Indicates the start point of a recurrence.
    pub recurrency_kind: Option<RecurrencyKindType>,
    /// Point in time at which the profile starts to be valid. If absent,
    /// the profile is valid as soon as it is received by the charge point.
    /// Not to be used when chargingProfilePurpose is TxProfile.
    pub valid_from: Option<UtcTimestamp>,
    /// Contains limits for the available power or current over time.
    pub charging_schedule: ChargingSchedule,
}

} // verus!
