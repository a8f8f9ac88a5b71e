//! Wall-clock instants with nanosecond resolution, and the whole-second
//! arithmetic the timer needs on them.

use vstd::prelude::*;

verus! {

/// Nanoseconds in one second.
pub const NANOS_PER_SEC: u32 = 1_000_000_000u32;

/// An instant, counted from the Unix epoch.
///
/// Two instants are ordered by [`Timestamp::as_nanos`]; the fields need not
/// be normalised.
#[derive(Clone, Copy, Debug, PartialEq, Eq, Structural)]
pub struct Timestamp {
    pub secs: u64,
    pub nanos: u32,
}

/// Why a duration between two instants could not be computed.
#[derive(Clone, Copy, Debug, PartialEq, Eq, Structural)]
pub enum ClockError {
    /// The later instant lies before the earlier one.
    Backwards,
}

impl Timestamp {
    /// Nanoseconds since the epoch.
    pub open spec fn as_nanos(self) -> nat {
        self.secs as nat * (NANOS_PER_SEC as nat) + self.nanos as nat
    }

    /// Whether `self` is strictly later than `other`.
    pub open spec fn spec_is_after(self, other: Timestamp) -> bool {
        self.as_nanos() > other.as_nanos()
    }

    fn total_nanos(&self) -> (n: u128)
        ensures
            n == self.as_nanos(),
    {
        let secs: u128 = self.secs as u128;
        let nanos: u128 = self.nanos as u128;
        secs * 1_000_000_000u128 + nanos
    }

    /// Whether `self` is strictly later than `other`.
    pub fn is_after(&self, other: &Timestamp) -> (after: bool)
        ensures
            after == self.spec_is_after(*other),
    {
        self.total_nanos() > other.total_nanos()
    }
}

/// Whole seconds that remain of `duration` seconds begun at `since`, as seen
/// at `now`: nothing once the duration has elapsed, otherwise what is left,
/// rounded down.
pub open spec fn remaining_seconds(since: Timestamp, now: Timestamp, duration: nat) -> nat
    recommends
        since.as_nanos() <= now.as_nanos(),
{
    let elapsed = now.as_nanos() - since.as_nanos();
    let total = duration * (NANOS_PER_SEC as nat);
    if elapsed >= total {
        0
    } else {
        ((total - elapsed) / (NANOS_PER_SEC as int)) as nat
    }
}

/// Whole seconds that remain of a period of `duration` seconds that began at
/// `since`. Fails exactly when `now` lies before `since`.
pub fn get_remaining_time(since: &Timestamp, now: &Timestamp, duration: u64) -> (res: Result<
    u64,
    ClockError,
>)
    ensures
        now.as_nanos() < since.as_nanos() <==> res == Err::<u64, ClockError>(ClockError::Backwards),
        now.as_nanos() >= since.as_nanos() ==> res == Ok::<u64, ClockError>(
            remaining_seconds(*since, *now, duration as nat) as u64,
        ),
        res matches Ok(left) ==> left <= duration,
{
    let start: u128 = since.total_nanos();
    let end: u128 = now.total_nanos();
    if end < start {
        return Err(ClockError::Backwards);
    }
    let elapsed: u128 = end - start;
    let wide: u128 = duration as u128;
    let total: u128 = wide * 1_000_000_000u128;
    if elapsed >= total {
        Ok(0)
    } else {
        let left: u128 = (total - elapsed) / 1_000_000_000u128;
        Ok(left as u64)
    }
}

} // verus!
