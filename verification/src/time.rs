//! A monotonic point in time, measured in microseconds since boot.
//!
//! The clock itself is an external collaborator; the arithmetic on its
//! readings is the library's.  Durations are plain microsecond counts.

use vstd::prelude::*;

verus! {

/// A point on the monotonic clock: microseconds since boot.
#[derive(Clone, Copy, Debug, PartialEq, Eq, Structural)]
pub struct Instant {
    pub us: u64,
}

impl Instant {
    /// The instant `us` microseconds after boot.
    pub fn from_micros(us: u64) -> (r: Instant)
        ensures
            r.us == us,
    {
        Instant { us }
    }

    /// Microseconds from `earlier` to `self`, zero if `earlier` is later.
    pub fn duration_since(&self, earlier: Instant) -> (r: u64)
        ensures
            self.us >= earlier.us ==> r == self.us - earlier.us,
            self.us < earlier.us ==> r == 0,
    {
        match self.checked_duration_since(earlier) {
            Some(d) => d,
            Option::None => 0,
        }
    }

    /// Microseconds from `earlier` to `self`, or nothing if `earlier` is
    /// later.
    pub fn checked_duration_since(&self, earlier: Instant) -> (r: Option<u64>)
        ensures
            self.us >= earlier.us ==> r == Some((self.us - earlier.us) as u64),
            self.us < earlier.us ==> r is None,
    {
        if self.us >= earlier.us {
            Some(self.us - earlier.us)
        } else {
            Option::None
        }
    }

    /// The instant `duration_us` microseconds later, or nothing if that
    /// does not fit the clock's range.
    pub fn checked_add(&self, duration_us: u64) -> (r: Option<Instant>)
        ensures
            self.us + duration_us <= u64::MAX ==> r == Some(
                Instant { us: (self.us + duration_us) as u64 },
            ),
            self.us + duration_us > u64::MAX ==> r is None,
    {
        match self.us.checked_add(duration_us) {
            Some(us) => Some(Instant { us }),
            Option::None => Option::None,
        }
    }

    /// The instant `duration_us` microseconds earlier, or nothing if that
    /// lies before boot.
    pub fn checked_sub(&self, duration_us: u64) -> (r: Option<Instant>)
        ensures
            self.us >= duration_us ==> r == Some(Instant { us: (self.us - duration_us) as u64 }),
            self.us < duration_us ==> r is None,
    {
        if self.us >= duration_us {
            Some(Instant { us: self.us - duration_us })
        } else {
            Option::None
        }
    }
}

} // verus!
