//! Points and spans of time, in nanoseconds of a monotonic clock.

use vstd::prelude::*;

verus! {

/// The nanoseconds in `ms` milliseconds.
pub open spec fn millis(ms: u64) -> nat {
    ms as nat * 1_000_000
}

/// The time from `earlier` to `now`; zero where `earlier` is the later one.
pub open spec fn since(earlier: u128, now: u128) -> nat {
    if earlier <= now {
        (now - earlier) as nat
    } else {
        0
    }
}

/// The nanoseconds in `ms` milliseconds.
pub fn nanos_of_millis(ms: u64) -> (r: u128)
    ensures
        r == millis(ms),
{
    ms as u128 * 1_000_000
}

/// The time from `earlier` to `now`; zero where `earlier` is the later one.
pub fn elapsed(earlier: u128, now: u128) -> (r: u128)
    ensures
        r == since(earlier, now),
{
    if earlier <= now {
        now - earlier
    } else {
        0
    }
}

/// A millisecond is a million nanoseconds, for every number of them.
pub proof fn a_millisecond_is_a_million_nanoseconds(ms: u64)
    ensures
        millis(ms) == ms * 1_000_000,
{
}

/// The time that has passed leads from the earlier point to the later one; against the clock
/// none has passed.
pub proof fn time_passes_from_earlier_to_later(earlier: u128, now: u128)
    ensures
        earlier <= now ==> earlier + since(earlier, now) == now,
        earlier >= now ==> since(earlier, now) == 0,
{
}

} // verus!
