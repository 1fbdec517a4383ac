//! The per-iteration alert decisions.
//!
//! Each check turns one sample into the alert texts it calls for:
//! at most one for memory, one per over-threshold volume for disk, at
//! most one for CPU load. A decision looks only at its own sample, so a
//! whole iteration's output is the concatenation of the three.

use vstd::prelude::*;
use crate::decimal::percent_hundredths;
use crate::decimal::percent_in_hundredths;
use crate::dispatch::opt_chars;
use crate::message::build_cpu_message;
use crate::message::build_disk_message;
use crate::message::build_memory_message;
use crate::message::cpu_message;
use crate::message::disk_message;
use crate::message::memory_message;
use crate::thresholds::cpu_exceeds;
use crate::thresholds::cpu_over_threshold;
use crate::thresholds::disk_exceeds;
use crate::thresholds::disk_over_threshold;
use crate::thresholds::memory_exceeds;
use crate::thresholds::memory_over_threshold;

verus! {

/// One mounted volume's sample: its name and its reported capacities,
/// in bytes.
pub struct DiskSample {
    pub name: String,
    pub total_space: u64,
    pub available_space: u64,
}

/// The alert a memory sample calls for, if any.
pub open spec fn spec_memory_alert(used: int, total: int) -> Option<Seq<char>> {
    if memory_over_threshold(used, total) {
        Some(memory_message(percent_hundredths(used, total)))
    } else {
        None
    }
}

/// The alert one volume's sample calls for, if any.
pub open spec fn spec_disk_alert(d: DiskSample) -> Option<Seq<char>> {
    if disk_over_threshold(d.total_space as int, d.available_space as int) {
        Some(disk_message(
            d.name@,
            percent_hundredths(d.total_space - d.available_space, d.total_space as int),
        ))
    } else {
        None
    }
}

/// The alert a CPU load sample calls for, if any. Only the 15-minute
/// average decides; the message reports all three.
pub open spec fn spec_cpu_alert(one: int, five: int, fifteen: int, cores: int) -> Option<
    Seq<char>,
> {
    if cpu_over_threshold(fifteen, cores) {
        Some(cpu_message(one, five, fifteen))
    } else {
        None
    }
}

/// An optional alert as a sequence of zero or one messages.
pub open spec fn opt_to_seq(o: Option<Seq<char>>) -> Seq<Seq<char>> {
    match o {
        Some(m) => seq![m],
        None => Seq::empty(),
    }
}

/// The alerts a sequence of volume samples calls for, in volume order.
pub open spec fn spec_disk_alerts(samples: Seq<DiskSample>) -> Seq<Seq<char>>
    decreases samples.len(),
{
    if samples.len() == 0 {
        Seq::empty()
    } else {
        spec_disk_alerts(samples.drop_last()) + opt_to_seq(spec_disk_alert(samples.last()))
    }
}

/// Everything one full iteration dispatches: the memory alert, then the
/// disk alerts in volume order, then the CPU alert, each included
/// exactly when its threshold is crossed.
pub open spec fn spec_iteration_alerts(
    used: int,
    total: int,
    disks: Seq<DiskSample>,
    one: int,
    five: int,
    fifteen: int,
    cores: int,
) -> Seq<Seq<char>> {
    opt_to_seq(spec_memory_alert(used, total)) + spec_disk_alerts(disks) + opt_to_seq(
        spec_cpu_alert(one, five, fifteen, cores),
    )
}

/// Decides the memory check for one sample: an alert is produced if and
/// only if the used percentage strictly exceeds the threshold, and then
/// it is exactly the memory message for that percentage.
pub fn memory_alert(used: u64, total: u64) -> (r: Option<String>)
    ensures
        opt_chars(r) == spec_memory_alert(used as int, total as int),
        r is Some <==> memory_over_threshold(used as int, total as int),
{
    if memory_exceeds(used, total) {
        let p = percent_in_hundredths(used, total);
        Some(build_memory_message(p))
    } else {
        None
    }
}

/// Decides the disk check for one volume, independently of any other.
pub fn disk_alert(sample: &DiskSample) -> (r: Option<String>)
    ensures
        opt_chars(r) == spec_disk_alert(*sample),
        r is Some <==> disk_over_threshold(
            sample.total_space as int,
            sample.available_space as int,
        ),
{
    if disk_exceeds(sample.total_space, sample.available_space) {
        let used = sample.total_space - sample.available_space;
        let p = percent_in_hundredths(used, sample.total_space);
        Some(build_disk_message(sample.name.as_str(), p))
    } else {
        None
    }
}

/// Decides the disk check for every volume of a sample, each one on its
/// own numbers alone, keeping volume order.
pub fn disk_alerts(samples: &Vec<DiskSample>) -> (r: Vec<String>)
    ensures
        r@.map_values(|s: String| s@) == spec_disk_alerts(samples@),
{
    let mut r: Vec<String> = Vec::new();
    let mut i: usize = 0;
    while i < samples.len()
        invariant
            i <= samples.len(),
            r@.map_values(|s: String| s@) == spec_disk_alerts(samples@.take(i as int)),
        decreases samples.len() - i,
    {
        match disk_alert(&samples[i]) {
            Some(m) => {
                r.push(m);
            },
            None => {},
        }
        proof {
            assert(samples@.take(i as int + 1).drop_last() =~= samples@.take(i as int));
            assert(samples@.take(i as int + 1).last() == samples@[i as int]);
            assert(r@.map_values(|s: String| s@) =~= spec_disk_alerts(
                samples@.take(i as int + 1),
            ));
        }
        i += 1;
    }
    proof {
        assert(samples@.take(samples@.len() as int) =~= samples@);
    }
    r
}

/// Decides the CPU load check for one sample. The three load averages
/// are taken in hundredths; `cores` is the number of logical CPUs.
pub fn cpu_alert(
    one_hundredths: u64,
    five_hundredths: u64,
    fifteen_hundredths: u64,
    cores: u64,
) -> (r: Option<String>)
    ensures
        opt_chars(r) == spec_cpu_alert(
            one_hundredths as int,
            five_hundredths as int,
            fifteen_hundredths as int,
            cores as int,
        ),
        r is Some <==> cpu_over_threshold(fifteen_hundredths as int, cores as int),
{
    if cpu_exceeds(fifteen_hundredths, cores) {
        Some(build_cpu_message(one_hundredths, five_hundredths, fifteen_hundredths))
    } else {
        None
    }
}

/// Runs all three checks on one iteration's samples. The result is
/// exactly the concatenation of the three checks' alerts, and in
/// particular empty when every sample is at or below its threshold.
pub fn iteration_alerts(
    used: u64,
    total: u64,
    disks: &Vec<DiskSample>,
    one_hundredths: u64,
    five_hundredths: u64,
    fifteen_hundredths: u64,
    cores: u64,
) -> (r: Vec<String>)
    ensures
        r@.map_values(|s: String| s@) == spec_iteration_alerts(
            used as int,
            total as int,
            disks@,
            one_hundredths as int,
            five_hundredths as int,
            fifteen_hundredths as int,
            cores as int,
        ),
        (!memory_over_threshold(used as int, total as int) && (forall|i: int|
            0 <= i < disks@.len() ==> !disk_over_threshold(
                disks@[i].total_space as int,
                disks@[i].available_space as int,
            )) && !cpu_over_threshold(fifteen_hundredths as int, cores as int)) ==> r@.len() == 0,
{
    let mut r: Vec<String> = Vec::new();
    match memory_alert(used, total) {
        Some(m) => {
            r.push(m);
        },
        None => {},
    }
    let ghost after_memory = r@;
    let mut from_disks = disk_alerts(disks);
    let ghost disk_part = from_disks@;
    r.append(&mut from_disks);
    let ghost after_disks = r@;
    match cpu_alert(one_hundredths, five_hundredths, fifteen_hundredths, cores) {
        Some(m) => {
            r.push(m);
        },
        None => {},
    }
    proof {
        let f = |s: String| s@;
        assert(after_memory.map_values(f) =~= opt_to_seq(
            spec_memory_alert(used as int, total as int),
        ));
        assert(after_disks =~= after_memory + disk_part);
        assert(after_disks.map_values(f) =~= after_memory.map_values(f) + disk_part.map_values(f));
        assert(r@.map_values(f) =~= after_disks.map_values(f) + opt_to_seq(
            spec_cpu_alert(
                one_hundredths as int,
                five_hundredths as int,
                fifteen_hundredths as int,
                cores as int,
            ),
        ));
        if !memory_over_threshold(used as int, total as int) && (forall|i: int|
            0 <= i < disks@.len() ==> !disk_over_threshold(
                disks@[i].total_space as int,
                disks@[i].available_space as int,
            )) && !cpu_over_threshold(fifteen_hundredths as int, cores as int) {
            lemma_disk_alerts_all_quiet(disks@);
        }
    }
    r
}

/// No volume over its threshold means no disk alert at all: the quiet
/// half of the per-volume independence of the disk check.
pub proof fn lemma_disk_alerts_all_quiet(samples: Seq<DiskSample>)
    requires
        forall|i: int|
            0 <= i < samples.len() ==> !disk_over_threshold(
                samples[i].total_space as int,
                samples[i].available_space as int,
            ),
    ensures
        spec_disk_alerts(samples) == Seq::<Seq<char>>::empty(),
    decreases samples.len(),
{
    if samples.len() > 0 {
        lemma_disk_alerts_all_quiet(samples.drop_last());
        assert(samples.last() == samples[samples.len() - 1]);
        assert(spec_disk_alerts(samples) =~= Seq::<Seq<char>>::empty());
    }
}

/// Volumes are judged one by one: splitting a sample list anywhere
/// splits its alerts the same way, so what one volume contributes never
/// depends on the volumes around it.
pub proof fn lemma_disk_alerts_concat(a: Seq<DiskSample>, b: Seq<DiskSample>)
    ensures
        spec_disk_alerts(a + b) == spec_disk_alerts(a) + spec_disk_alerts(b),
    decreases b.len(),
{
    if b.len() == 0 {
        assert(a + b =~= a);
        assert(spec_disk_alerts(a) + spec_disk_alerts(b) =~= spec_disk_alerts(a));
    } else {
        lemma_disk_alerts_concat(a, b.drop_last());
        assert((a + b).drop_last() =~= a + b.drop_last());
        assert((a + b).last() == b.last());
        assert(spec_disk_alerts(a + b) =~= spec_disk_alerts(a) + spec_disk_alerts(b));
    }
}

} // verus!
