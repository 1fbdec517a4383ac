//! The three alert message templates.

use vstd::prelude::*;
use crate::decimal::format_hundredths;
use crate::decimal::hundredths_rep;

verus! {

/// `"Memory used over {p:.2}% - alert by Dawn."`, with the used
/// percentage `p` given in hundredths.
pub open spec fn memory_message(percent_hundredths: int) -> Seq<char> {
    "Memory used over "@ + hundredths_rep(percent_hundredths) + "% - alert by Dawn."@
}

/// `"disk {name} usage over - {p:.2}% - alert by Dawn."`, with the used
/// percentage `p` given in hundredths.
pub open spec fn disk_message(name: Seq<char>, percent_hundredths: int) -> Seq<char> {
    "disk "@ + name + " usage over - "@ + hundredths_rep(percent_hundredths)
        + "% - alert by Dawn."@
}

/// `"CPU load average too high: {one:.2} {five:.2} {fifteen:.2} - alert
/// by Dawn."`, with the three load averages given in hundredths.
pub open spec fn cpu_message(
    one_hundredths: int,
    five_hundredths: int,
    fifteen_hundredths: int,
) -> Seq<char> {
    "CPU load average too high: "@ + hundredths_rep(one_hundredths) + " "@
        + hundredths_rep(five_hundredths) + " "@ + hundredths_rep(fifteen_hundredths)
        + " - alert by Dawn."@
}

/// Builds the memory alert text for a used percentage in hundredths.
pub fn build_memory_message(percent_hundredths: u128) -> (r: String)
    ensures
        r@ == memory_message(percent_hundredths as int),
{
    let mut s = "Memory used over ".to_owned();
    s.append(format_hundredths(percent_hundredths).as_str());
    s.append("% - alert by Dawn.");
    proof {
        assert(s@ =~= memory_message(percent_hundredths as int));
    }
    s
}

/// Builds the disk alert text for one volume and its used percentage in
/// hundredths.
pub fn build_disk_message(name: &str, percent_hundredths: u128) -> (r: String)
    ensures
        r@ == disk_message(name@, percent_hundredths as int),
{
    let mut s = "disk ".to_owned();
    s.append(name);
    s.append(" usage over - ");
    s.append(format_hundredths(percent_hundredths).as_str());
    s.append("% - alert by Dawn.");
    proof {
        assert(s@ =~= disk_message(name@, percent_hundredths as int));
    }
    s
}

/// Builds the CPU alert text for the three load averages in hundredths.
pub fn build_cpu_message(
    one_hundredths: u64,
    five_hundredths: u64,
    fifteen_hundredths: u64,
) -> (r: String)
    ensures
        r@ == cpu_message(
            one_hundredths as int,
            five_hundredths as int,
            fifteen_hundredths as int,
        ),
{
    let mut s = "CPU load average too high: ".to_owned();
    s.append(format_hundredths(one_hundredths as u128).as_str());
    s.append(" ");
    s.append(format_hundredths(five_hundredths as u128).as_str());
    s.append(" ");
    s.append(format_hundredths(fifteen_hundredths as u128).as_str());
    s.append(" - alert by Dawn.");
    proof {
        assert(s@ =~= cpu_message(
            one_hundredths as int,
            five_hundredths as int,
            fifteen_hundredths as int,
        ));
    }
    s
}

} // verus!
