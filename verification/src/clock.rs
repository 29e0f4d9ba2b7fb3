//! The monotonic clock of the battery interface.

use vstd::prelude::*;

verus! {

/// Reads the clock: a call of `embassy_time::Instant::now` followed by
/// `Instant::as_millis`, the milliseconds since the clock started. Nothing
/// is claimed of the value; in particular two readings may be in any order.
#[verifier::external_body]
pub(crate) fn clock_millis() -> (now: u64) {
    embassy_time::Instant::now().as_millis()
}

/// The time from `earlier` to `now` in milliseconds; zero where `now` is not
/// after `earlier`.
pub open spec fn elapsed_ms(now: u64, earlier: u64) -> int {
    if now >= earlier {
        now - earlier
    } else {
        0
    }
}

/// The time from `earlier` to `now`, by [`elapsed_ms`].
pub fn elapsed(now: u64, earlier: u64) -> (dt: u64)
    ensures
        dt == elapsed_ms(now, earlier),
{
    if now >= earlier {
        now - earlier
    } else {
        0
    }
}

/// The time `ms` milliseconds after `now`, held at the largest time.
pub open spec fn later_ms(now: u64, ms: u64) -> u64 {
    if now + ms <= u64::MAX {
        (now + ms) as u64
    } else {
        u64::MAX
    }
}

/// The time `ms` milliseconds after `now`, by [`later_ms`].
pub fn later(now: u64, ms: u64) -> (t: u64)
    ensures
        t == later_ms(now, ms),
{
    if now <= u64::MAX - ms {
        now + ms
    } else {
        u64::MAX
    }
}

} // verus!
