//! Points in time, as the vault stores them beside its notifications.

use std::time::UNIX_EPOCH;
use vstd::prelude::*;

verus! {

/// A point in time: whole seconds since the Unix epoch, and the nanoseconds
/// into the current second.
#[derive(Clone, Copy, Debug, PartialEq, Eq, Structural)]
pub struct Moment {
    pub secs: u64,
    pub nanos: u32,
}

/// Nanoseconds in a second.
pub const NANOS_PER_SEC: u64 = 1_000_000_000;

impl Moment {
    /// The number of nanoseconds between the epoch and this moment.
    pub open spec fn total_nanos(self) -> nat {
        (self.secs * NANOS_PER_SEC + self.nanos) as nat
    }

    /// The nanoseconds that have passed at `self` since `earlier`; none, if
    /// `earlier` is not in the past.
    pub open spec fn nanos_since(self, earlier: Moment) -> nat {
        if self.total_nanos() >= earlier.total_nanos() {
            (self.total_nanos() - earlier.total_nanos()) as nat
        } else {
            0
        }
    }

    /// Whether fewer than `secs` whole seconds have passed at `self` since
    /// `earlier`.
    pub open spec fn within(self, earlier: Moment, secs: u64) -> bool {
        self.nanos_since(earlier) < secs * NANOS_PER_SEC
    }

    /// A moment at the start of the second `secs`.
    pub fn from_secs(secs: u64) -> (moment: Moment)
        ensures
            moment == (Moment { secs, nanos: 0 }),
    {
        Moment { secs, nanos: 0 }
    }

    /// Tells whether fewer than `secs` whole seconds lie between `earlier`
    /// and `self`. A moment that is not in the past counts as just now.
    pub fn is_within(&self, earlier: &Moment, secs: u64) -> (recent: bool)
        ensures
            recent == self.within(*earlier, secs),
    {
        let per_sec: u128 = 1_000_000_000;
        let now: u128 = self.secs as u128 * per_sec + self.nanos as u128;
        let then: u128 = earlier.secs as u128 * per_sec + earlier.nanos as u128;
        if now >= then {
            now - then < secs as u128 * per_sec
        } else {
            secs > 0
        }
    }
}

/// `SystemTime::elapsed` on `UNIX_EPOCH`: the time that has passed since the
/// epoch on the wall clock, as whole seconds and the nanoseconds into the
/// current second, or nothing where the clock stands before the epoch.
/// Nothing is claimed of the reading but that the nanoseconds stay below one
/// second, as `Duration::subsec_nanos` documents.
#[verifier::external_body]
pub(crate) fn read_clock() -> (reading: Option<Moment>)
    ensures
        reading matches Some(moment) ==> moment.nanos < NANOS_PER_SEC,
{
    match UNIX_EPOCH.elapsed() {
        Ok(distance) => Some(Moment { secs: distance.as_secs(), nanos: distance.subsec_nanos() }),
        Err(_) => None,
    }
}

} // verus!
