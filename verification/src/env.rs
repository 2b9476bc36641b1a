//! The clock that the service reads its timestamps from.

use vstd::prelude::*;

verus! {

/// What the service needs from its host: the current time in milliseconds.
/// Of a running clock nothing is promised, so the operations that read one
/// are stated for every reading. A clock that stands still says which time
/// it shows.
pub trait Environment {
    /// The time that every reading gives, for a clock that stands still.
    spec fn fixed_time(&self) -> Option<u64>;

    /// The current time in milliseconds.
    fn now(&self) -> (time: u64)
        ensures
            self.fixed_time() matches Some(t) ==> time == t,
    ;
}

/// The clock of the canister's host.
pub struct CanisterEnvironment {}

/// The number of nanoseconds in a millisecond.
pub const NANOS_PER_MILLI: u64 = 1_000_000;

/// Reads the host's clock, which counts nanoseconds, with
/// `ic_cdk::api::time`. Trusted; the reading is whatever the host reports, so
/// nothing is claimed of it.
#[verifier::external_body]
fn host_time() -> (nanos: u64) {
    ic_cdk::api::time()
}

/// The whole milliseconds in a number of nanoseconds.
pub fn millis_from_nanos(nanos: u64) -> (millis: u64)
    ensures
        millis == nanos / NANOS_PER_MILLI,
{
    nanos / NANOS_PER_MILLI
}

impl CanisterEnvironment {
    /// The host's clock.
    pub fn new() -> (env: Self)
        ensures
            env == (CanisterEnvironment {  }),
    {
        CanisterEnvironment {  }
    }
}

impl Environment for CanisterEnvironment {
    open spec fn fixed_time(&self) -> Option<u64> {
        None
    }

    /// The host's time in whole milliseconds.
    fn now(&self) -> (time: u64)
        ensures
            time <= u64::MAX / NANOS_PER_MILLI,
    {
        millis_from_nanos(host_time())
    }
}

/// A clock that stands still at zero, for a state that no host has set up.
pub struct EmptyEnvironment {}

impl EmptyEnvironment {
    /// The clock that stands at zero.
    pub fn new() -> (env: Self)
        ensures
            env == (EmptyEnvironment {  }),
    {
        EmptyEnvironment {  }
    }
}

impl Environment for EmptyEnvironment {
    open spec fn fixed_time(&self) -> Option<u64> {
        Some(0)
    }

    fn now(&self) -> (time: u64) {
        0
    }
}

/// A clock that always shows the time it was made with.
pub struct TestEnvironment {
    pub now: u64,
}

impl TestEnvironment {
    /// A clock that stands at `now`.
    pub fn new(now: u64) -> (env: Self)
        ensures
            env.now == now,
    {
        TestEnvironment { now }
    }
}

impl Environment for TestEnvironment {
    open spec fn fixed_time(&self) -> Option<u64> {
        Some(self.now)
    }

    fn now(&self) -> (time: u64) {
        self.now
    }
}

} // verus!
