//! Wall-clock instants as plain numbers.

use vstd::prelude::*;

verus! {

pub const NANOS_PER_SECOND: i32 = 1_000_000_000;

/// An instant: seconds and nanoseconds since the Unix epoch.
#[derive(Debug, Copy, Clone, PartialEq, Eq, Structural)]
pub struct Timestamp {
    pub seconds: i64,
    pub nanos: i32,
}

impl Timestamp {
    /// The instant as one number of nanoseconds since the epoch.
    pub open spec fn total_nanos(self) -> int {
        self.seconds * NANOS_PER_SECOND + self.nanos
    }

    /// The instant that lies `seconds` whole seconds and `subsec_nanos`
    /// nanoseconds after the epoch, or `None` if the seconds do not fit or the
    /// nanoseconds make up a second or more.
    pub fn from_epoch(seconds: u64, subsec_nanos: u32) -> (instant: Option<Timestamp>)
        ensures
            instant == if seconds <= i64::MAX && subsec_nanos < NANOS_PER_SECOND {
                Some(Timestamp { seconds: seconds as i64, nanos: subsec_nanos as i32 })
            } else {
                None
            },
    {
        if seconds <= 0x7FFF_FFFF_FFFF_FFFFu64 && subsec_nanos < 1_000_000_000u32 {
            Some(Timestamp { seconds: seconds as i64, nanos: subsec_nanos as i32 })
        } else {
            None
        }
    }

    /// The whole seconds and the nanoseconds of the instant's distance from
    /// the epoch, or `None` if the instant lies before the epoch or its
    /// nanoseconds are not below one second.
    pub fn since_epoch(self) -> (parts: Option<(u64, u32)>)
        ensures
            parts == if self.seconds >= 0 && 0 <= self.nanos < NANOS_PER_SECOND {
                Some((self.seconds as u64, self.nanos as u32))
            } else {
                None
            },
    {
        if self.seconds >= 0 && self.nanos >= 0 && self.nanos < NANOS_PER_SECOND {
            Some((self.seconds as u64, self.nanos as u32))
        } else {
            None
        }
    }

    /// The instant `seconds` later, or `None` if that is beyond what a
    /// timestamp can hold.
    pub fn plus_seconds(self, seconds: u32) -> (later: Option<Timestamp>)
        ensures
            later == if self.seconds + seconds <= i64::MAX {
                Some(Timestamp { seconds: (self.seconds + seconds) as i64, nanos: self.nanos })
            } else {
                None
            },
            later matches Some(t) ==> t.total_nanos() == self.total_nanos() + seconds
                * NANOS_PER_SECOND,
    {
        match self.seconds.checked_add(seconds as i64) {
            Some(sum) => {
                assert((self.seconds + seconds) * NANOS_PER_SECOND + self.nanos == self.seconds
                    * NANOS_PER_SECOND + self.nanos + seconds * NANOS_PER_SECOND)
                    by (nonlinear_arith);
                Some(Timestamp { seconds: sum, nanos: self.nanos })
            },
            None => None,
        }
    }

    /// The nanoseconds from this instant to `later`, or `None` if `later` lies
    /// before this instant.
    pub fn nanos_until(self, later: Timestamp) -> (wait: Option<u128>)
        ensures
            wait == if later.total_nanos() >= self.total_nanos() {
                Some((later.total_nanos() - self.total_nanos()) as u128)
            } else {
                None
            },
    {
        let from: i128 = self.seconds as i128 * 1_000_000_000 + self.nanos as i128;
        let to: i128 = later.seconds as i128 * 1_000_000_000 + later.nanos as i128;
        if to >= from {
            Some((to - from) as u128)
        } else {
            None
        }
    }
}

} // verus!
