//! The three threshold predicates and the fixed monitoring constants.
//!
//! Percentages are exact rationals `part / whole * 100`; the predicates
//! compare them against the thresholds without rounding, by cross
//! multiplication over unbounded integers.

use vstd::prelude::*;

verus! {

/// Memory alerts fire strictly above this used percentage.
pub const MEMORY_THRESHOLD_PERCENT: u64 = 70;

/// Disk alerts fire strictly above this used percentage, per volume.
pub const DISK_THRESHOLD_PERCENT: u64 = 80;

/// CPU alerts fire when the 15-minute load average strictly exceeds
/// this factor times the number of logical CPUs.
pub const CPU_LOAD_FACTOR: u64 = 2;

/// Seconds between two monitoring iterations.
pub const CHECK_INTERVAL_SECS: u64 = 600;

/// `used / total * 100 > 70`, i.e. `used * 100 > total * 70`.
/// A sample with no memory reported (`total == 0`) never fires.
pub open spec fn memory_over_threshold(used: int, total: int) -> bool {
    total > 0 && used * 100 > total * (MEMORY_THRESHOLD_PERCENT as int)
}

/// `(total - available) / total * 100 > 80`. A volume with no capacity
/// reported (`total == 0`) never fires; neither does one whose reported
/// available space exceeds its capacity, since its used share is not
/// positive.
pub open spec fn disk_over_threshold(total: int, available: int) -> bool {
    total > 0 && (total - available) * 100 > total * (DISK_THRESHOLD_PERCENT as int)
}

/// The 15-minute load average, in hundredths, strictly exceeds
/// `2.00 * cores` (also in hundredths: `cores * 200`).
pub open spec fn cpu_over_threshold(fifteen_hundredths: int, cores: int) -> bool {
    fifteen_hundredths > cores * (CPU_LOAD_FACTOR as int) * 100
}

/// Decides the memory predicate exactly, with no intermediate rounding.
pub fn memory_exceeds(used: u64, total: u64) -> (r: bool)
    ensures
        r == memory_over_threshold(used as int, total as int),
{
    total > 0 && (used as u128) * 100 > (total as u128) * 70
}

/// Decides the disk predicate exactly, with no intermediate rounding.
pub fn disk_exceeds(total: u64, available: u64) -> (r: bool)
    ensures
        r == disk_over_threshold(total as int, available as int),
{
    total > 0 && available < total && ((total - available) as u128) * 100 > (total as u128) * 80
}

/// Decides the CPU load predicate exactly. The load average is taken in
/// hundredths, the finest granularity the alert ever reports.
pub fn cpu_exceeds(fifteen_hundredths: u64, cores: u64) -> (r: bool)
    ensures
        r == cpu_over_threshold(fifteen_hundredths as int, cores as int),
{
    (fifteen_hundredths as u128) > (cores as u128) * 200
}

} // verus!
