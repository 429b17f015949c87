//! The run state the task dispatcher works on, and every decision it takes:
//! how many new calls to start this iteration, what a completed call does to
//! the books, what the controller tick consumes, and when, after a stop
//! request, the run may produce its terminal report. The surrounding loop —
//! spawning tasks, awaiting the invoker, sleeping between ticks — performs
//! these decisions but takes none of its own.

use vstd::prelude::*;
use crate::config::LoadConfig;
use crate::controller::Controller;
use crate::histogram::LatencyHistogram;
use crate::metrics::{MetricsAggregator, MetricsSnapshot, spec_new_samples};
use crate::outcome::CallOutcome;
use crate::rate::RateGate;
use crate::request::fresh_request;
use crate::tpcb::Request;

verus! {

/// All the shared state of one sustained load run.
pub struct LoadRun {
    /// The validated startup parameters.
    pub config: LoadConfig,
    /// The adaptive concurrency controller.
    pub controller: Controller,
    /// The per-second admission gate.
    pub gate: RateGate,
    /// The run's counters and latency-sample stream.
    pub metrics: MetricsAggregator,
    /// Calls started and not yet completed.
    pub in_flight: u64,
    /// Set once by the shutdown signal; never cleared.
    pub stop_requested: bool,
    /// The rolling latency histogram, fed once per tick, read only for
    /// reporting.
    pub latency_hist: LatencyHistogram,
}

impl LoadRun {
    /// The run's invariant: each component is well formed, the admission
    /// window and the controller agree with the configuration, and the
    /// in-flight count never passes the controller's cap.
    pub open spec fn wf(self) -> bool {
        &&& self.config.valid()
        &&& self.controller.wf()
        &&& self.controller.max_in_flight == self.config.spec_max_in_flight()
        &&& self.gate.wf()
        &&& self.gate.rate_per_second == self.config.rate_per_second
        &&& self.metrics.wf()
        &&& self.in_flight <= self.controller.max_in_flight
    }

    /// How many more calls the controller's current target has room for.
    pub open spec fn spec_spawn_room(self) -> u64 {
        if self.controller.target >= self.in_flight {
            (self.controller.target - self.in_flight) as u64
        } else {
            0
        }
    }

    /// The success delta the next controller tick will consume.
    pub open spec fn spec_success_delta(self) -> u64 {
        (self.metrics.counts.success_count - self.metrics.last_success) as u64
    }

    /// The dispatch-failure delta the next controller tick will consume.
    pub open spec fn spec_dispatch_delta(self) -> u64 {
        (self.metrics.counts.dispatch_error_count - self.metrics.last_dispatch_errors) as u64
    }

    /// Set up a run: target at the floor, empty counters, an admission
    /// window starting now, nothing in flight.
    pub fn new(config: LoadConfig, now_ms: u64) -> (r: LoadRun)
        requires
            config.valid(),
        ensures
            r.wf(),
            r.config == config,
            r.controller.target == crate::controller::TARGET_FLOOR,
            r.gate.window_start_ms == now_ms,
            r.gate.spawned_this_window == 0,
            r.metrics.counts == MetricsSnapshot::spec_zero(),
            r.in_flight == 0,
            !r.stop_requested,
    {
        let max_in_flight = config.max_in_flight();
        let rate = config.rate_per_second as u64;
        LoadRun {
            config,
            controller: Controller::new(max_in_flight),
            gate: RateGate::new(rate, now_ms),
            metrics: MetricsAggregator::new(),
            in_flight: 0,
            stop_requested: false,
            latency_hist: LatencyHistogram::new(),
        }
    }

    /// How many new calls to start this iteration: none after the stop
    /// request; otherwise whatever the admission gate grants of the room the
    /// concurrency target leaves, and those calls count as in flight at
    /// once.
    pub fn spawn_quota(&mut self, now_ms: u64) -> (r: u64)
        requires
            old(self).wf(),
            old(self).gate.window_start_ms <= now_ms,
        ensures
            final(self).wf(),
            old(self).stop_requested ==> r == 0 && *final(self) == *old(self),
            !old(self).stop_requested ==> r == old(self).gate.spec_granted(
                old(self).spec_spawn_room(),
                now_ms,
            ),
            !old(self).stop_requested ==> final(self).gate == old(self).gate.spec_after_grant(
                old(self).spec_spawn_room(),
                now_ms,
            ),
            r <= old(self).spec_spawn_room(),
            final(self).in_flight == old(self).in_flight + r,
            final(self).in_flight <= final(self).controller.max_in_flight,
            final(self).controller == old(self).controller,
            final(self).metrics == old(self).metrics,
            final(self).config == old(self).config,
            final(self).stop_requested == old(self).stop_requested,
    {
        if self.stop_requested {
            return 0;
        }
        let room = if self.controller.target >= self.in_flight {
            self.controller.target - self.in_flight
        } else {
            0
        };
        let granted = self.gate.grant(room, now_ms);
        self.in_flight = self.in_flight + granted;
        granted
    }

    /// The payload of one admitted call: two distinct random identifiers
    /// from the configured pool, moving one unit.
    pub fn next_request(&self) -> (r: Request)
        requires
            self.wf(),
        ensures
            r.wf(self.config.account_pool_size),
    {
        fresh_request(self.config.account_pool_size, 1)
    }

    /// A call finished with the given outcome: it leaves the in-flight set
    /// and its outcome is recorded.
    pub fn call_completed(&mut self, outcome: CallOutcome)
        requires
            old(self).wf(),
            old(self).in_flight >= 1,
            old(self).metrics.counts.total_calls < u64::MAX,
        ensures
            final(self).wf(),
            final(self).in_flight == old(self).in_flight - 1,
            final(self).metrics.counts == old(self).metrics.counts.spec_record(outcome),
            final(self).metrics.last_success == old(self).metrics.last_success,
            final(self).metrics.last_dispatch_errors == old(self).metrics.last_dispatch_errors,
            final(self).metrics.pending_samples@ == old(self).metrics.pending_samples@
                + spec_new_samples(outcome),
            final(self).controller == old(self).controller,
            final(self).gate == old(self).gate,
            final(self).config == old(self).config,
            final(self).stop_requested == old(self).stop_requested,
    {
        self.in_flight = self.in_flight - 1;
        self.metrics.record(outcome);
    }

    /// Whether the next completed call can still be recorded exactly.
    pub fn can_record(&self) -> (r: bool)
        ensures
            r == (self.metrics.counts.total_calls < u64::MAX),
    {
        self.metrics.can_record()
    }

    /// One controller tick: consume the interval's success and
    /// dispatch-failure deltas, drain the pending latency samples into the
    /// rolling histogram, and recompute the target.
    pub fn controller_tick(&mut self)
        requires
            old(self).wf(),
        ensures
            final(self).wf(),
            final(self).controller == old(self).controller.spec_tick(
                old(self).spec_success_delta(),
                old(self).spec_dispatch_delta(),
            ),
            final(self).metrics.counts == old(self).metrics.counts,
            final(self).metrics.last_success == old(self).metrics.counts.success_count,
            final(self).metrics.last_dispatch_errors == old(self).metrics.counts.dispatch_error_count,
            final(self).metrics.pending_samples@ == Seq::<u64>::empty(),
            final(self).gate == old(self).gate,
            final(self).config == old(self).config,
            final(self).in_flight == old(self).in_flight,
            final(self).stop_requested == old(self).stop_requested,
    {
        let deltas = self.metrics.snapshot_deltas();
        let samples = self.metrics.take_samples();
        let ghost pre = *self;
        let mut i: usize = 0;
        while i < samples.len()
            invariant
                i <= samples.len(),
                self.config == pre.config,
                self.controller == pre.controller,
                self.gate == pre.gate,
                self.metrics == pre.metrics,
                self.in_flight == pre.in_flight,
                self.stop_requested == pre.stop_requested,
            decreases samples.len() - i,
        {
            self.latency_hist.record(samples[i]);
            i = i + 1;
        }
        self.controller.tick(deltas.0, deltas.1);
    }

    /// The shutdown signal: stop admitting new calls. Calls already in
    /// flight are unaffected and will still be reaped.
    pub fn request_stop(&mut self)
        ensures
            final(self).stop_requested,
            final(self).controller == old(self).controller,
            final(self).gate == old(self).gate,
            final(self).metrics == old(self).metrics,
            final(self).config == old(self).config,
            final(self).in_flight == old(self).in_flight,
            old(self).wf() ==> final(self).wf(),
    {
        self.stop_requested = true;
    }

    /// The dispatch loop runs while the run is not stopped or anything is
    /// still in flight: draining continues even after the stop request.
    pub fn should_continue(&self) -> (r: bool)
        ensures
            r == (!self.stop_requested || self.in_flight > 0),
    {
        !self.stop_requested || self.in_flight > 0
    }

    /// The terminal report may only be produced once the stop was requested
    /// and nothing is left in flight.
    pub fn may_report(&self) -> (r: bool)
        ensures
            r == (self.stop_requested && self.in_flight == 0),
    {
        self.stop_requested && self.in_flight == 0
    }

    /// The run's counters, for the periodic status line and the terminal
    /// report.
    pub fn snapshot(&self) -> (r: MetricsSnapshot)
        ensures
            r == self.metrics.counts,
    {
        self.metrics.final_snapshot()
    }

    /// The rolling latency histogram, read-only, for quantile reporting.
    pub fn latency_histogram(&self) -> &LatencyHistogram {
        &self.latency_hist
    }
}

} // verus!
