//! The monotonic clock of std, read as nanoseconds after an origin.
//!
//! What the clock gives is not known to any proof: the contracts here say
//! only that the readings do not go back, which this code sees to itself.

use std::time::Duration;
use std::time::Instant;
use vstd::prelude::*;

verus! {

/// `std::time::Instant`: a moment of the monotonic clock. Nothing is said of
/// what it holds.
#[verifier::external_type_specification]
#[verifier::external_body]
pub struct ExInstant(Instant);

/// `Instant::now` gives the present moment. Nothing is claimed of it.
pub assume_specification[ Instant::now ]() -> (t: Instant);

/// `Instant::elapsed` gives the time since the moment. It depends on when it
/// is called, so nothing is claimed of it.
pub assume_specification[ Instant::elapsed ](t: &Instant) -> (d: Duration);

/// `Duration::as_nanos` gives the whole duration in nanoseconds. Nothing is
/// claimed of the number.
pub assume_specification[ Duration::as_nanos ](d: &Duration) -> (n: u128);

/// A clock that counts from the moment it was started and never goes back:
/// a reading that would be earlier than one given before is given as that
/// one.
#[derive(Clone, Copy, Debug)]
pub struct Clock {
    origin: Instant,
    latest: u128,
}

impl Clock {
    /// The latest reading that `read` has given, zero before the first.
    pub closed spec fn latest(&self) -> nat {
        self.latest as nat
    }

    /// A clock that reads zero now.
    pub fn start() -> (c: Clock)
        ensures
            c.latest() == 0,
    {
        Clock { origin: Instant::now(), latest: 0 }
    }

    /// Nanoseconds since the clock was started, without noting the reading.
    pub fn peek(&self) -> (now: u128)
        ensures
            now >= self.latest(),
    {
        let since: Duration = self.origin.elapsed();
        let raw: u128 = since.as_nanos();
        if raw >= self.latest {
            raw
        } else {
            self.latest
        }
    }

    /// Nanoseconds since the clock was started. The reading is noted as the
    /// latest.
    pub fn read(&mut self) -> (now: u128)
        ensures
            now >= old(self).latest(),
            final(self).latest() == now,
    {
        let now: u128 = self.peek();
        self.latest = now;
        now
    }
}

} // verus!
