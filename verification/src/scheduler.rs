//! Re-armable one-shot timer binding.
//!
//! The round engine guarantees that it is invoked again at the computed
//! future time by scheduling itself through this interface on every
//! transition. A binding that refuses to arm makes the whole transition
//! fail, because a committed phase with no scheduled follow-up would stall
//! the system forever.

use vstd::prelude::*;

verus! {

/// The scheduler binding could not arm the requested invocation.
#[derive(Copy, Clone, Debug, PartialEq, Eq, Structural)]
pub struct SchedulingError;

/// A re-armable one-shot timer: delivers one invocation at or after the
/// requested time, never before it, and at least once.
///
/// Whether a request is accepted is the binding's own decision; the spec
/// function `accepts` names that decision so that callers can state exactly
/// when their own operations succeed.
pub trait Scheduler {
    /// Whether the binding, in its current state, accepts a request to fire
    /// at `at`.
    spec fn accepts(&self, at: u64) -> bool;

    /// Requests one invocation at time `at`, replacing no earlier request
    /// (stale deliveries are expected and must be tolerated by the callee).
    fn schedule_once(&mut self, at: u64) -> (r: Result<(), SchedulingError>)
        ensures
            r is Ok <==> old(self).accepts(at),
    ;
}

/// A binding that accepts every request and remembers the time of the most
/// recent one; the time is read back by hosts that simulate the clock.
#[derive(Copy, Clone, Debug, PartialEq, Eq, Structural)]
pub struct OneShotScheduler {
    pub armed: Option<u64>,
}

impl OneShotScheduler {
    /// A binding with no request armed yet.
    pub fn new() -> (r: OneShotScheduler)
        ensures
            r.armed is None,
    {
        OneShotScheduler { armed: None }
    }
}

impl Scheduler for OneShotScheduler {
    open spec fn accepts(&self, at: u64) -> bool {
        true
    }

    fn schedule_once(&mut self, at: u64) -> (r: Result<(), SchedulingError>) {
        self.armed = Some(at);
        Ok(())
    }
}

/// A binding that refuses every request, standing in for a host whose timer
/// queue is unavailable.
#[derive(Copy, Clone, Debug, PartialEq, Eq, Structural)]
pub struct RefusingScheduler;

impl Scheduler for RefusingScheduler {
    open spec fn accepts(&self, at: u64) -> bool {
        false
    }

    fn schedule_once(&mut self, at: u64) -> (r: Result<(), SchedulingError>) {
        let _ = at;
        Err(SchedulingError)
    }
}

} // verus!
