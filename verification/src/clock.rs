//! The two clocks a span reads, and the conversion of a duration to whole
//! milliseconds.
//!
//! A span measures its duration on the monotonic clock (`Instant`) and
//! reports its start on the wall clock (`SystemTime`). Both are outside
//! what is verified here: nothing is claimed of what they read.

use vstd::prelude::*;
use std::time::Duration;
use std::time::Instant;
use std::time::SystemTime;
use std::time::SystemTimeError;
use std::time::UNIX_EPOCH;

verus! {

/// `std::time::Instant`, a reading of the monotonic clock.
#[verifier::external_type_specification]
#[verifier::external_body]
pub struct ExInstant(Instant);

/// `std::time::SystemTime`, a reading of the wall clock.
#[verifier::external_type_specification]
#[verifier::external_body]
pub struct ExSystemTime(SystemTime);

/// `std::time::SystemTimeError`, the error of a wall clock that reads a
/// time before the one it is compared with.
#[verifier::external_type_specification]
#[verifier::external_body]
pub struct ExSystemTimeError(SystemTimeError);

/// The whole seconds that a duration holds: what `Duration::as_secs` reads.
pub uninterp spec fn duration_secs(d: Duration) -> u64;

/// The nanoseconds beyond its whole seconds that a duration holds: what
/// `Duration::subsec_nanos` reads.
pub uninterp spec fn duration_subsec_nanos(d: Duration) -> u32;

/// `Duration::as_secs` reads a field of the duration: the same duration
/// gives the same number.
pub assume_specification[ Duration::as_secs ](d: &Duration) -> (secs: u64)
    ensures
        secs == duration_secs(*d),
;

/// `Duration::subsec_nanos` reads a field of the duration: the same
/// duration gives the same number, and it is always less than one second.
pub assume_specification[ Duration::subsec_nanos ](d: &Duration) -> (nanos: u32)
    ensures
        nanos == duration_subsec_nanos(*d),
        nanos < 1_000_000_000,
;

/// `Instant::now` reads the monotonic clock.
pub assume_specification[ Instant::now ]() -> (t: Instant)
;

/// `Instant::elapsed` reads the monotonic clock and gives the time since
/// `t`.
pub assume_specification[ Instant::elapsed ](t: &Instant) -> (d: Duration)
;

/// `SystemTime::now` reads the wall clock.
pub assume_specification[ SystemTime::now ]() -> (t: SystemTime)
;

/// The time from the Unix epoch to `t`, by `SystemTime::duration_since`:
/// an error where `t` lies before the epoch.
#[verifier::external_body]
pub(crate) fn since_unix_epoch(t: &SystemTime) -> (r: Result<Duration, SystemTimeError>) {
    t.duration_since(UNIX_EPOCH)
}

/// The whole milliseconds in `secs` seconds and `subsec_nanos` nanoseconds.
pub open spec fn whole_millis(secs: u64, subsec_nanos: u32) -> nat {
    (secs * 1000 + subsec_nanos / 1_000_000) as nat
}

/// `n` where it fits 64 bits, the largest 64-bit number where it does not.
pub open spec fn saturated(n: nat) -> u64 {
    if n <= u64::MAX {
        n as u64
    } else {
        u64::MAX
    }
}

/// Whole milliseconds of a duration given by its parts, saturating at
/// `u64::MAX`.
pub fn millis_from_parts(secs: u64, subsec_nanos: u32) -> (ms: u64)
    ensures
        ms == saturated(whole_millis(secs, subsec_nanos)),
{
    let sub: u64 = (subsec_nanos / 1_000_000) as u64;
    match secs.checked_mul(1000) {
        Some(whole) => match whole.checked_add(sub) {
            Some(total) => total,
            None => u64::MAX,
        },
        None => u64::MAX,
    }
}

/// A longer duration never has fewer whole milliseconds: durations are
/// ordered by their seconds, then by their nanoseconds, which stay below
/// one second.
pub proof fn lemma_millis_monotonic(secs1: u64, nanos1: u32, secs2: u64, nanos2: u32)
    requires
        nanos1 < 1_000_000_000,
        nanos2 < 1_000_000_000,
        secs1 < secs2 || (secs1 == secs2 && nanos1 <= nanos2),
    ensures
        saturated(whole_millis(secs1, nanos1)) <= saturated(whole_millis(secs2, nanos2)),
{
}

} // verus!
