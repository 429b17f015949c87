//! The AIMD concurrency controller: once per tick it reads the success and
//! dispatch-failure deltas of the last interval and recomputes the target
//! number of concurrently in-flight calls. Growth is additive (a fixed step
//! per clean tick, capped at the configured maximum); any dispatch failure
//! collapses the target to the last level known to sustain zero dispatch
//! failures. Application-level errors are deliberately not an input: they
//! mean the remote side is alive, so they never reduce the target.

use vstd::prelude::*;

verus! {

/// The lowest value the concurrency target may take.
pub const TARGET_FLOOR: u64 = 10;

/// How much a clean tick adds to the concurrency target.
pub const TARGET_STEP: u64 = 10;

/// State of the adaptive concurrency controller.
pub struct Controller {
    /// Current target number of in-flight calls.
    pub target: u64,
    /// The most recent target that sustained a tick with successes and no
    /// dispatch failures.
    pub last_good_target: u64,
    /// Hard cap on the target.
    pub max_in_flight: u64,
}

impl Controller {
    /// Both the target and the recorded last-good target stay between the
    /// floor and the configured maximum.
    pub open spec fn wf(self) -> bool {
        &&& TARGET_FLOOR <= self.target <= self.max_in_flight
        &&& TARGET_FLOOR <= self.last_good_target <= self.max_in_flight
    }

    /// What one controller tick does, given the interval's success and
    /// dispatch-failure deltas.
    pub open spec fn spec_tick(self, success_delta: u64, dispatch_failure_delta: u64) -> Controller {
        if dispatch_failure_delta == 0 && success_delta > 0 {
            Controller {
                target: if self.target + TARGET_STEP <= self.max_in_flight {
                    (self.target + TARGET_STEP) as u64
                } else {
                    self.max_in_flight
                },
                last_good_target: self.target,
                max_in_flight: self.max_in_flight,
            }
        } else if dispatch_failure_delta > 0 {
            Controller {
                target: if self.last_good_target >= TARGET_FLOOR {
                    self.last_good_target
                } else {
                    TARGET_FLOOR
                },
                last_good_target: self.last_good_target,
                max_in_flight: self.max_in_flight,
            }
        } else {
            self
        }
    }

    /// A fresh controller starts at the floor.
    pub fn new(max_in_flight: u64) -> (r: Controller)
        requires
            TARGET_FLOOR <= max_in_flight,
        ensures
            r.wf(),
            r.target == TARGET_FLOOR,
            r.last_good_target == TARGET_FLOOR,
            r.max_in_flight == max_in_flight,
    {
        Controller { target: TARGET_FLOOR, last_good_target: TARGET_FLOOR, max_in_flight }
    }

    /// One controller tick: additive increase on a clean interval, collapse
    /// to the last good target on any dispatch failure, no change on an idle
    /// interval.
    pub fn tick(&mut self, success_delta: u64, dispatch_failure_delta: u64)
        requires
            old(self).wf(),
        ensures
            *final(self) == old(self).spec_tick(success_delta, dispatch_failure_delta),
            final(self).wf(),
    {
        if dispatch_failure_delta == 0 && success_delta > 0 {
            self.last_good_target = self.target;
            self.target = if self.target <= self.max_in_flight - TARGET_STEP {
                self.target + TARGET_STEP
            } else {
                self.max_in_flight
            };
        } else if dispatch_failure_delta > 0 {
            self.target = if self.last_good_target >= TARGET_FLOOR {
                self.last_good_target
            } else {
                TARGET_FLOOR
            };
        }
    }
}

/// A tick keeps the target and the last-good target between the floor and
/// the configured maximum.
pub proof fn lemma_tick_preserves_bounds(c: Controller, success_delta: u64, dispatch_failure_delta: u64)
    requires
        c.wf(),
    ensures
        c.spec_tick(success_delta, dispatch_failure_delta).wf(),
{
}

/// Ticks without dispatch failures never decrease the target, whatever mix
/// of successes and application errors the interval saw: application errors
/// are not an input of the controller at all.
pub proof fn lemma_no_dispatch_failure_never_decreases(c: Controller, success_delta: u64)
    requires
        c.wf(),
    ensures
        c.spec_tick(success_delta, 0).target >= c.target,
{
}

/// The controller after `n` clean ticks: every interval saw at least one
/// success and no dispatch failure.
pub open spec fn spec_clean_ticks(c: Controller, n: nat) -> Controller
    decreases n,
{
    if n == 0 {
        c
    } else {
        spec_clean_ticks(c, (n - 1) as nat).spec_tick(1, 0)
    }
}

/// How many successes a clean tick saw does not matter, only that there was
/// at least one.
pub proof fn lemma_clean_tick_same_for_any_successes(c: Controller, success_delta: u64)
    requires
        success_delta >= 1,
    ensures
        c.spec_tick(success_delta, 0) == c.spec_tick(1, 0),
{
}

/// Clean ticks stay well formed.
pub proof fn lemma_clean_ticks_wf(c: Controller, n: nat)
    requires
        c.wf(),
    ensures
        spec_clean_ticks(c, n).wf(),
    decreases n,
{
    if n > 0 {
        lemma_clean_ticks_wf(c, (n - 1) as nat);
    }
}

/// Under an invoker that always succeeds, repeated ticks raise the target by
/// exactly one step per tick — strictly, while it is below the cap — until
/// it reaches the cap, where it then holds.
pub proof fn lemma_clean_ticks_climb_to_cap(c: Controller, n: nat)
    requires
        c.wf(),
    ensures
        spec_clean_ticks(c, n).target == if c.target + n * TARGET_STEP <= c.max_in_flight {
            c.target + n * TARGET_STEP
        } else {
            c.max_in_flight as int
        },
        spec_clean_ticks(c, n).max_in_flight == c.max_in_flight,
    decreases n,
{
    if n > 0 {
        lemma_clean_ticks_climb_to_cap(c, (n - 1) as nat);
        lemma_clean_ticks_wf(c, (n - 1) as nat);
        assert(n * TARGET_STEP == (n - 1) * TARGET_STEP + TARGET_STEP) by (nonlinear_arith);
    }
}

/// Each clean tick records the target it grew from: after `n >= 1` clean
/// ticks the last good target is the target that stood after tick `n - 1`.
pub proof fn lemma_clean_ticks_remember_last_good(c: Controller, n: nat)
    requires
        c.wf(),
        n >= 1,
    ensures
        spec_clean_ticks(c, n).last_good_target == spec_clean_ticks(c, (n - 1) as nat).target,
{
}

/// A dispatch failure on the tick after `n >= 1` clean ticks collapses the
/// target exactly to the level that stood after tick `n - 1` — the last
/// level known to sustain zero dispatch failures, not the floor.
pub proof fn lemma_backoff_restores_last_good(
    c: Controller,
    n: nat,
    success_delta: u64,
    dispatch_failure_delta: u64,
)
    requires
        c.wf(),
        n >= 1,
        dispatch_failure_delta > 0,
    ensures
        spec_clean_ticks(c, n).spec_tick(success_delta, dispatch_failure_delta).target
            == spec_clean_ticks(c, (n - 1) as nat).target,
{
    lemma_clean_ticks_wf(c, (n - 1) as nat);
    lemma_clean_ticks_remember_last_good(c, n);
}

} // verus!
