//! Sampling memory and disk usage through `sysinfo`, and running the
//! corresponding checks on whatever the machine reports.
//!
//! The numbers themselves depend on the machine at the moment of the
//! call, so nothing is promised about them; each check's contract says
//! that its outcome is the verified decision for some such sample.
//! The CPU load averages are reported by `sysinfo` as floating-point
//! numbers, so that sample is taken by the surrounding application and
//! handed to [`crate::checks::cpu_alert`] in hundredths.

use vstd::prelude::*;
use crate::checks::DiskSample;
use crate::checks::disk_alerts;
use crate::checks::memory_alert;
use crate::checks::spec_disk_alerts;
use crate::checks::spec_memory_alert;
use crate::dispatch::opt_chars;

verus! {

#[verifier::external_type_specification]
#[verifier::external_body]
pub struct ExSystem(sysinfo::System);

/// Relies on `sysinfo::System::refresh_all`: brings the snapshot up to
/// date with the machine.
#[verifier::external_body]
fn refresh_system(sys: &mut sysinfo::System) {
    sys.refresh_all();
}

/// Relies on `sysinfo::System::used_memory`: the snapshot's used
/// physical memory, in bytes.
#[verifier::external_body]
fn used_memory(sys: &sysinfo::System) -> (r: u64) {
    sys.used_memory()
}

/// Relies on `sysinfo::System::total_memory`: the snapshot's total
/// physical memory, in bytes.
#[verifier::external_body]
fn total_memory(sys: &sysinfo::System) -> (r: u64) {
    sys.total_memory()
}

/// Relies on `sysinfo::Disks::new_with_refreshed_list`: a freshly
/// enumerated list of the mounted volumes, handed out as one plain
/// sample per volume.
#[verifier::external_body]
fn disk_samples() -> (r: Vec<DiskSample>) {
    let disks = sysinfo::Disks::new_with_refreshed_list();
    disks.list().iter().map(|d| DiskSample {
        name: d.name().to_string_lossy().into_owned(),
        total_space: d.total_space(),
        available_space: d.available_space(),
    }).collect()
}

/// Refreshes the snapshot and runs the memory check on it: whatever the
/// machine reports, the outcome is the verified memory decision for
/// that sample.
pub fn memory_check(sys: &mut sysinfo::System) -> (r: Option<String>)
    ensures
        exists|used: u64, total: u64|
            opt_chars(r) == spec_memory_alert(used as int, total as int),
{
    refresh_system(sys);
    let used = used_memory(sys);
    let total = total_memory(sys);
    let r = memory_alert(used, total);
    proof {
        assert(opt_chars(r) == spec_memory_alert(used as int, total as int));
    }
    r
}

/// Enumerates the mounted volumes afresh and runs the disk check on
/// every one of them: whatever the machine reports, the outcome is the
/// verified per-volume decision for that list of samples.
pub fn disk_check() -> (r: Vec<String>)
    ensures
        exists|samples: Seq<DiskSample>|
            r@.map_values(|s: String| s@) == spec_disk_alerts(samples),
{
    let samples = disk_samples();
    let r = disk_alerts(&samples);
    proof {
        assert(r@.map_values(|s: String| s@) == spec_disk_alerts(samples@));
    }
    r
}

} // verus!
