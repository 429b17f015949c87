//! The rate admission gate: bounds how many new calls may start within the
//! current one-second wall-clock window, independently of how much
//! concurrency headroom the controller allows.

use vstd::prelude::*;

verus! {

/// Length of one admission window in milliseconds.
pub const WINDOW_MS: u64 = 1000;

/// State of the admission gate.
pub struct RateGate {
    /// The steady-state ceiling: calls admitted per window.
    pub rate_per_second: u64,
    /// When the current window began, in milliseconds of a monotone clock.
    pub window_start_ms: u64,
    /// How many calls this window has admitted so far.
    pub spawned_this_window: u64,
}

impl RateGate {
    /// The window never admits more than the configured rate.
    pub open spec fn wf(self) -> bool {
        self.spawned_this_window <= self.rate_per_second
    }

    /// The state after any due window reset: once a full window has elapsed,
    /// the admission count starts over and the window begins at the current
    /// instant.
    pub open spec fn spec_rolled(self, now_ms: u64) -> RateGate {
        if now_ms - self.window_start_ms >= WINDOW_MS {
            RateGate { window_start_ms: now_ms, spawned_this_window: 0, ..self }
        } else {
            self
        }
    }

    /// How many of `n` requested slots are granted at `now_ms`: whatever is
    /// left of the window's budget after the due reset.
    pub open spec fn spec_granted(self, n: u64, now_ms: u64) -> u64 {
        let rolled = self.spec_rolled(now_ms);
        if n <= rolled.rate_per_second - rolled.spawned_this_window {
            n
        } else {
            (rolled.rate_per_second - rolled.spawned_this_window) as u64
        }
    }

    /// The state after granting at `now_ms`.
    pub open spec fn spec_after_grant(self, n: u64, now_ms: u64) -> RateGate {
        let rolled = self.spec_rolled(now_ms);
        RateGate {
            spawned_this_window: (rolled.spawned_this_window + self.spec_granted(n, now_ms)) as u64,
            ..rolled
        }
    }

    /// A fresh gate with an empty window starting now.
    pub fn new(rate_per_second: u64, now_ms: u64) -> (r: RateGate)
        ensures
            r.wf(),
            r == (RateGate { rate_per_second, window_start_ms: now_ms, spawned_this_window: 0 }),
    {
        RateGate { rate_per_second, window_start_ms: now_ms, spawned_this_window: 0 }
    }

    /// Grant up to `n` new-call slots at `now_ms`: the result is
    /// `min(n, rate_per_second - spawned_this_window)` after any due window
    /// reset, never negative, and the window's admission count grows by
    /// exactly the granted amount, never past the configured rate.
    pub fn grant(&mut self, n: u64, now_ms: u64) -> (r: u64)
        requires
            old(self).wf(),
            old(self).window_start_ms <= now_ms,
        ensures
            r == old(self).spec_granted(n, now_ms),
            *final(self) == old(self).spec_after_grant(n, now_ms),
            final(self).wf(),
            r <= n,
            final(self).spawned_this_window <= final(self).rate_per_second,
            final(self).rate_per_second == old(self).rate_per_second,
            now_ms - old(self).window_start_ms < WINDOW_MS ==> r + old(self).spawned_this_window
                <= old(self).rate_per_second,
    {
        if now_ms - self.window_start_ms >= WINDOW_MS {
            self.spawned_this_window = 0;
            self.window_start_ms = now_ms;
        }
        let budget = self.rate_per_second - self.spawned_this_window;
        let granted = if n <= budget {
            n
        } else {
            budget
        };
        self.spawned_this_window = self.spawned_this_window + granted;
        granted
    }
}

/// The state after a whole sequence of grant calls, each a pair of a
/// requested slot count and the instant it was made.
pub open spec fn spec_run_grants(g: RateGate, reqs: Seq<(u64, u64)>) -> RateGate
    decreases reqs.len(),
{
    if reqs.len() == 0 {
        g
    } else {
        spec_run_grants(g, reqs.drop_last()).spec_after_grant(reqs.last().0, reqs.last().1)
    }
}

/// How many slots that sequence of grant calls was granted in total.
pub open spec fn spec_total_granted(g: RateGate, reqs: Seq<(u64, u64)>) -> int
    decreases reqs.len(),
{
    if reqs.len() == 0 {
        0
    } else {
        spec_total_granted(g, reqs.drop_last()) + spec_run_grants(
            g,
            reqs.drop_last(),
        ).spec_granted(reqs.last().0, reqs.last().1)
    }
}

/// Across any one rolling one-second window, the granted calls never
/// exceed the configured rate: for every sequence of grant calls whose
/// instants all fall inside the window, the total granted — on top of
/// whatever the window had already admitted — stays within `rate_per_second`.
pub proof fn lemma_rolling_window_bound(g: RateGate, reqs: Seq<(u64, u64)>)
    requires
        g.wf(),
        forall|i: int|
            0 <= i < reqs.len() ==> g.window_start_ms <= (#[trigger] reqs[i]).1 && reqs[i].1
                - g.window_start_ms < WINDOW_MS,
    ensures
        spec_run_grants(g, reqs).window_start_ms == g.window_start_ms,
        spec_run_grants(g, reqs).rate_per_second == g.rate_per_second,
        spec_run_grants(g, reqs).wf(),
        spec_run_grants(g, reqs).spawned_this_window == g.spawned_this_window
            + spec_total_granted(g, reqs),
        g.spawned_this_window + spec_total_granted(g, reqs) <= g.rate_per_second,
    decreases reqs.len(),
{
    if reqs.len() > 0 {
        lemma_rolling_window_bound(g, reqs.drop_last());
        assert(reqs.last() == reqs[reqs.len() - 1]);
    }
}

} // verus!
