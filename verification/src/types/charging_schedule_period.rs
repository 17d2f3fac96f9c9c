//! One period of a charging schedule.

use vstd::prelude::*;

verus! {

/// A charging rate: power or current, in the unit of measure the enclosing
/// schedule declares. The wire format accepts at most one fractional digit,
/// so the value is held exactly as a signed count of tenths of the unit.
#[derive(Clone, Copy, Debug, PartialEq, Eq, Structural)]
pub struct ChargingRate {
    /// The rate in tenths of the unit (e.g. 325 stands for 32.5 A).
    pub tenths: i64,
}

/// One element of a schedule's period list, defining maximum power or
/// current usage over time.
#[derive(Clone, Copy, Debug, PartialEq, Eq, Structural)]
pub struct ChargingSchedulePeriod {
    /// Start of the period, in seconds from the start of the schedule. The
    /// value of startPeriod also defines the stop time of the previous
    /// period.
    pub start_period: usize,
    /// Power limit during the schedule period, expressed in the schedule's
    /// charging rate unit.
    pub limit: ChargingRate,
    /// The number of phases that can be used for charging. If a number of
    /// phases is needed, numberPhases = 3 will be assumed unless another
    /// number is given.
    pub number_phases: Option<usize>,
}

} // verus!
