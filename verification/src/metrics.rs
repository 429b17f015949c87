//! Metrics aggregation for a load run: lifetime counters, one per outcome
//! class, plus the summed durations and retries the replies reported, and a
//! stream of latency samples the controller drains once per tick. Counters
//! only ever grow, and the three outcome counters always sum to the total.

use vstd::prelude::*;
use crate::outcome::CallOutcome;

verus! {

/// One read-only view of the run's counters.
#[derive(Clone, Copy, Debug, PartialEq, Eq, Structural)]
pub struct MetricsSnapshot {
    /// Completed calls of any outcome.
    pub total_calls: u64,
    /// Replies without an application error.
    pub success_count: u64,
    /// Replies carrying an application error, conflicts included.
    pub application_error_count: u64,
    /// The subset of application errors carrying the conflict code.
    pub conflict_error_count: u64,
    /// Calls that failed at the transport level.
    pub dispatch_error_count: u64,
    /// Sum of the durations the replies reported, in milliseconds.
    pub summed_duration_ms: u64,
    /// Sum of the retry counts the replies reported.
    pub summed_retries: u64,
}

/// Addition that stops at the largest representable value instead of
/// overflowing, for the two reported sums.
pub open spec fn spec_sat_add(a: u64, b: u64) -> u64 {
    if a + b <= u64::MAX {
        (a + b) as u64
    } else {
        u64::MAX
    }
}

impl MetricsSnapshot {
    /// A snapshot with every counter at zero.
    pub open spec fn spec_zero() -> MetricsSnapshot {
        MetricsSnapshot {
            total_calls: 0,
            success_count: 0,
            application_error_count: 0,
            conflict_error_count: 0,
            dispatch_error_count: 0,
            summed_duration_ms: 0,
            summed_retries: 0,
        }
    }

    /// The books balance: the three outcome counters sum to the total, and
    /// conflicts are a subset of the application errors.
    pub open spec fn balanced(self) -> bool {
        &&& self.total_calls == self.success_count + self.application_error_count
            + self.dispatch_error_count
        &&& self.conflict_error_count <= self.application_error_count
    }

    /// What recording one outcome does to the counters: the total and
    /// exactly one of the three outcome counters grow by one; a reply's
    /// reported duration and retries, when present, are added to their sums.
    pub open spec fn spec_record(self, outcome: CallOutcome) -> MetricsSnapshot {
        match outcome {
            CallOutcome::Success { duration_ms, retries } => MetricsSnapshot {
                total_calls: (self.total_calls + 1) as u64,
                success_count: (self.success_count + 1) as u64,
                summed_duration_ms: spec_add_opt(self.summed_duration_ms, duration_ms),
                summed_retries: spec_add_opt_u32(self.summed_retries, retries),
                ..self
            },
            CallOutcome::ApplicationError { message: _, code, duration_ms, retries } => MetricsSnapshot {
                total_calls: (self.total_calls + 1) as u64,
                application_error_count: (self.application_error_count + 1) as u64,
                conflict_error_count: if outcome.spec_is_conflict() {
                    (self.conflict_error_count + 1) as u64
                } else {
                    self.conflict_error_count
                },
                summed_duration_ms: spec_add_opt(self.summed_duration_ms, duration_ms),
                summed_retries: spec_add_opt_u32(self.summed_retries, retries),
                ..self
            },
            CallOutcome::DispatchFailure { cause: _ } => MetricsSnapshot {
                total_calls: (self.total_calls + 1) as u64,
                dispatch_error_count: (self.dispatch_error_count + 1) as u64,
                ..self
            },
        }
    }
}

/// Add a reply's optional duration to its running sum.
pub open spec fn spec_add_opt(sum: u64, v: Option<u64>) -> u64 {
    match v {
        Some(d) => spec_sat_add(sum, d),
        None => sum,
    }
}

/// Add a reply's optional retry count to its running sum.
pub open spec fn spec_add_opt_u32(sum: u64, v: Option<u32>) -> u64 {
    match v {
        Some(r) => spec_sat_add(sum, r as u64),
        None => sum,
    }
}

/// The latency samples one outcome contributes: a reply that reported a
/// duration contributes that duration, whether or not it carried an
/// application error; a dispatch failure contributes nothing.
pub open spec fn spec_new_samples(outcome: CallOutcome) -> Seq<u64> {
    match outcome {
        CallOutcome::Success { duration_ms: Some(d), .. } => seq![d],
        CallOutcome::ApplicationError { duration_ms: Some(d), .. } => seq![d],
        _ => Seq::empty(),
    }
}

/// The run's metrics: lifetime counters, the marks of the controller's last
/// delta read, and the pending latency samples.
pub struct MetricsAggregator {
    /// The lifetime counters.
    pub counts: MetricsSnapshot,
    /// Success count at the last delta read.
    pub last_success: u64,
    /// Dispatch-error count at the last delta read.
    pub last_dispatch_errors: u64,
    /// Latency samples recorded since the last drain.
    pub pending_samples: Vec<u64>,
}

impl MetricsAggregator {
    /// The counters balance and the delta marks never run ahead of them.
    pub open spec fn wf(self) -> bool {
        &&& self.counts.balanced()
        &&& self.last_success <= self.counts.success_count
        &&& self.last_dispatch_errors <= self.counts.dispatch_error_count
    }

    /// A fresh aggregator with every counter at zero.
    pub fn new() -> (r: MetricsAggregator)
        ensures
            r.wf(),
            r.counts == MetricsSnapshot::spec_zero(),
            r.last_success == 0,
            r.last_dispatch_errors == 0,
            r.pending_samples@ == Seq::<u64>::empty(),
    {
        MetricsAggregator {
            counts: MetricsSnapshot {
                total_calls: 0,
                success_count: 0,
                application_error_count: 0,
                conflict_error_count: 0,
                dispatch_error_count: 0,
                summed_duration_ms: 0,
                summed_retries: 0,
            },
            last_success: 0,
            last_dispatch_errors: 0,
            pending_samples: Vec::new(),
        }
    }

    /// Whether another call can still be recorded exactly.
    pub fn can_record(&self) -> (r: bool)
        ensures
            r == (self.counts.total_calls < u64::MAX),
    {
        self.counts.total_calls < u64::MAX
    }

    /// Record one completed call: the total and exactly one outcome counter
    /// grow by one, reported durations and retries are added to their sums,
    /// and a reported duration joins the pending latency samples.
    pub fn record(&mut self, outcome: CallOutcome)
        requires
            old(self).wf(),
            old(self).counts.total_calls < u64::MAX,
        ensures
            final(self).wf(),
            final(self).counts == old(self).counts.spec_record(outcome),
            final(self).counts.total_calls == old(self).counts.total_calls + 1,
            final(self).last_success == old(self).last_success,
            final(self).last_dispatch_errors == old(self).last_dispatch_errors,
            final(self).pending_samples@ == old(self).pending_samples@ + spec_new_samples(outcome),
    {
        self.counts.total_calls = self.counts.total_calls + 1;
        match outcome {
            CallOutcome::Success { duration_ms, retries } => {
                self.counts.success_count = self.counts.success_count + 1;
                self.add_reply_measurements(duration_ms, retries);
            },
            CallOutcome::ApplicationError { message: _, code, duration_ms, retries } => {
                self.counts.application_error_count = self.counts.application_error_count + 1;
                let conflict: String = "40001".to_owned();
                let is_conflict = match &code {
                    Some(c) => *c == conflict,
                    None => false,
                };
                if is_conflict {
                    self.counts.conflict_error_count = self.counts.conflict_error_count + 1;
                }
                self.add_reply_measurements(duration_ms, retries);
            },
            CallOutcome::DispatchFailure { cause: _ } => {
                self.counts.dispatch_error_count = self.counts.dispatch_error_count + 1;
            },
        }
    }

    /// Fold a reply's reported duration and retries into the sums and the
    /// pending samples.
    fn add_reply_measurements(&mut self, duration_ms: Option<u64>, retries: Option<u32>)
        ensures
            final(self).counts == (MetricsSnapshot {
                summed_duration_ms: spec_add_opt(old(self).counts.summed_duration_ms, duration_ms),
                summed_retries: spec_add_opt_u32(old(self).counts.summed_retries, retries),
                ..old(self).counts
            }),
            final(self).last_success == old(self).last_success,
            final(self).last_dispatch_errors == old(self).last_dispatch_errors,
            final(self).pending_samples@ == old(self).pending_samples@ + (match duration_ms {
                Some(d) => seq![d],
                None => Seq::<u64>::empty(),
            }),
    {
        if let Some(d) = duration_ms {
            self.counts.summed_duration_ms = sat_add(self.counts.summed_duration_ms, d);
            self.pending_samples.push(d);
            proof {
                assert(self.pending_samples@ =~= old(self).pending_samples@ + seq![d]);
            }
        } else {
            proof {
                assert(self.pending_samples@ =~= old(self).pending_samples@ + Seq::<u64>::empty());
            }
        }
        if let Some(r) = retries {
            self.counts.summed_retries = sat_add(self.counts.summed_retries, r as u64);
        }
    }

    /// Atomically read and clear the deltas since the previous read: how
    /// many successes and how many dispatch failures the last interval saw.
    pub fn snapshot_deltas(&mut self) -> (r: (u64, u64))
        requires
            old(self).wf(),
        ensures
            final(self).wf(),
            r.0 == old(self).counts.success_count - old(self).last_success,
            r.1 == old(self).counts.dispatch_error_count - old(self).last_dispatch_errors,
            final(self).counts == old(self).counts,
            final(self).last_success == old(self).counts.success_count,
            final(self).last_dispatch_errors == old(self).counts.dispatch_error_count,
            final(self).pending_samples@ == old(self).pending_samples@,
    {
        let success_delta = self.counts.success_count - self.last_success;
        let dispatch_delta = self.counts.dispatch_error_count - self.last_dispatch_errors;
        self.last_success = self.counts.success_count;
        self.last_dispatch_errors = self.counts.dispatch_error_count;
        (success_delta, dispatch_delta)
    }

    /// Hand over the pending latency samples, leaving the stream empty.
    pub fn take_samples(&mut self) -> (r: Vec<u64>)
        ensures
            r@ == old(self).pending_samples@,
            final(self).pending_samples@ == Seq::<u64>::empty(),
            final(self).counts == old(self).counts,
            final(self).last_success == old(self).last_success,
            final(self).last_dispatch_errors == old(self).last_dispatch_errors,
    {
        let mut taken: Vec<u64> = Vec::new();
        std::mem::swap(&mut taken, &mut self.pending_samples);
        taken
    }

    /// The terminal, read-only view of the counters.
    pub fn final_snapshot(&self) -> (r: MetricsSnapshot)
        ensures
            r == self.counts,
    {
        self.counts
    }
}

/// Saturating addition, as `spec_sat_add` states it.
fn sat_add(a: u64, b: u64) -> (r: u64)
    ensures
        r == spec_sat_add(a, b),
{
    if a <= u64::MAX - b {
        a + b
    } else {
        u64::MAX
    }
}

/// Recording keeps the books balanced, and grows the total and exactly one
/// of the three outcome counters by one: at every point after a call
/// completes, the total equals the sum of the success, application-error
/// and dispatch-error counts.
pub proof fn lemma_record_keeps_balance(s: MetricsSnapshot, outcome: CallOutcome)
    requires
        s.balanced(),
        s.total_calls < u64::MAX,
    ensures
        s.spec_record(outcome).balanced(),
        s.spec_record(outcome).total_calls == s.total_calls + 1,
        s.spec_record(outcome).success_count + s.spec_record(outcome).application_error_count
            + s.spec_record(outcome).dispatch_error_count == s.success_count
            + s.application_error_count + s.dispatch_error_count + 1,
{
}

/// Counters never shrink: recording any outcome leaves every counter at or
/// above its old value.
pub proof fn lemma_record_monotone(s: MetricsSnapshot, outcome: CallOutcome)
    requires
        s.balanced(),
        s.total_calls < u64::MAX,
    ensures
        s.spec_record(outcome).total_calls >= s.total_calls,
        s.spec_record(outcome).success_count >= s.success_count,
        s.spec_record(outcome).application_error_count >= s.application_error_count,
        s.spec_record(outcome).conflict_error_count >= s.conflict_error_count,
        s.spec_record(outcome).dispatch_error_count >= s.dispatch_error_count,
        s.spec_record(outcome).summed_duration_ms >= s.summed_duration_ms,
        s.spec_record(outcome).summed_retries >= s.summed_retries,
{
}

/// An application error, conflict-coded or not, touches neither the success
/// count nor the dispatch-error count: the controller's deltas cannot see
/// it, so it can never push the target down.
pub proof fn lemma_application_error_invisible_to_controller(s: MetricsSnapshot, outcome: CallOutcome)
    requires
        outcome matches CallOutcome::ApplicationError { .. },
    ensures
        s.spec_record(outcome).success_count == s.success_count,
        s.spec_record(outcome).dispatch_error_count == s.dispatch_error_count,
{
}

} // verus!
