//! The usage snapshot a device reports: energy and time counters over three
//! reporting windows. The device may omit any counter, so each is optional.
use vstd::prelude::*;

verus! {

/// One family of counters over the three reporting windows.
#[derive(Clone, Copy, Debug)]
pub struct UsageByPeriod {
    pub today: Option<u64>,
    pub past7: Option<u64>,
    pub past30: Option<u64>,
}

/// What one usage query of a device returns: time usage in minutes and power
/// usage in watt-hours.
#[derive(Clone, Copy, Debug)]
pub struct DeviceUsage {
    pub time_usage: UsageByPeriod,
    pub power_usage: UsageByPeriod,
}

} // verus!
