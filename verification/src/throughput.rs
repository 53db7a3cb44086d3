//! Throughput computation for a timed transfer.
//!
//! A transfer of `bytes` bytes over `elapsed_us` microseconds of wall-clock
//! time has a throughput of `bytes * 8 / (elapsed_us / 1_000_000)` bits per
//! second.  All figures are kept in integer units: bits per second is a
//! millionth of a megabit per second, so a presentation layer obtains
//! megabits per second by dividing the result by 1,000,000.

use vstd::prelude::*;

verus! {

use vstd::arithmetic::div_mod::lemma_div_is_ordered_by_denominator;
use vstd::arithmetic::div_mod::lemma_div_denominator;

/// Throughput in bits per second of a transfer of `bytes` bytes taking
/// `elapsed_us` microseconds, rounded toward zero.  An instantaneous
/// transfer (zero elapsed time) is reported as zero rather than left
/// undefined.
pub open spec fn spec_throughput_bps(bytes: nat, elapsed_us: nat) -> nat {
    if elapsed_us == 0 {
        0
    } else {
        (bytes * 8 * 1_000_000) / elapsed_us
    }
}

/// Computes the throughput, in bits per second, of a transfer of `bytes`
/// bytes that took `elapsed_us` microseconds.
pub fn throughput_bps(bytes: u64, elapsed_us: u64) -> (r: u128)
    ensures
        r == spec_throughput_bps(bytes as nat, elapsed_us as nat),
{
    if elapsed_us == 0 {
        0
    } else {
        let bits: u128 = (bytes as u128) * 8 * 1_000_000;
        bits / (elapsed_us as u128)
    }
}

/// For a fixed byte count, throughput never increases as the elapsed time
/// grows: the longer a transfer of the same size takes, the lower the
/// reported rate.
pub proof fn lemma_throughput_antitone(bytes: nat, t1: nat, t2: nat)
    requires
        0 < t1 <= t2,
    ensures
        spec_throughput_bps(bytes, t2) <= spec_throughput_bps(bytes, t1),
{
    lemma_div_is_ordered_by_denominator((bytes * 8 * 1_000_000) as int, t1 as int, t2 as int);
}

/// Over a whole number of seconds the fixed-point figure coincides with the
/// plain formula: a transfer of `bytes` bytes over `secs` seconds runs at
/// `bytes * 8 / secs` bits per second, that is `bytes * 8 / secs / 1_000_000`
/// megabits per second.
pub proof fn lemma_throughput_whole_seconds(bytes: nat, secs: nat)
    requires
        0 < secs,
    ensures
        spec_throughput_bps(bytes, secs * 1_000_000) == ((bytes * 8) as int) / (secs as int),
{
    let x = (bytes * 8 * 1_000_000) as int;
    lemma_div_denominator(x, 1_000_000, secs as int);
    assert(x / 1_000_000 == bytes * 8) by {
        vstd::arithmetic::div_mod::lemma_div_by_multiple((bytes * 8) as int, 1_000_000);
    }
    assert(1_000_000 * (secs as int) == (secs * 1_000_000) as int) by (nonlinear_arith);
}

} // verus!
