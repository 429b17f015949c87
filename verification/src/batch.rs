//! Aggregate statistics of a fixed-batch stress run: success and error
//! totals, the spread of reported durations, retry figures, and a breakdown
//! of the distinct errors seen. The fixed-batch runner shares the outcome
//! classification of the sustained run but has no feedback loop.

use vstd::prelude::*;
use crate::outcome::CallOutcome;

verus! {

/// What distinguishes one line of the error breakdown from another.
pub enum ErrorKey {
    /// An application error, told apart by message and code.
    Application { message: String, code: Option<String> },
    /// A dispatch failure, told apart by its cause.
    Dispatch { cause: String },
}

/// Two breakdown keys name the same error: same kind, and the same text in
/// every part.
pub open spec fn spec_key_matches(a: ErrorKey, b: ErrorKey) -> bool {
    match (a, b) {
        (
            ErrorKey::Application { message: ma, code: ca },
            ErrorKey::Application { message: mb, code: cb },
        ) => ma@ == mb@ && match (ca, cb) {
            (Some(xa), Some(xb)) => xa@ == xb@,
            (None, None) => true,
            _ => false,
        },
        (ErrorKey::Dispatch { cause: da }, ErrorKey::Dispatch { cause: db }) => da@ == db@,
        _ => false,
    }
}

/// The breakdown key one outcome contributes, if it is an error at all.
pub open spec fn spec_key_of(outcome: CallOutcome) -> Option<ErrorKey> {
    match outcome {
        CallOutcome::Success { .. } => None,
        CallOutcome::ApplicationError { message, code, .. } => Some(
            ErrorKey::Application { message, code },
        ),
        CallOutcome::DispatchFailure { cause } => Some(ErrorKey::Dispatch { cause }),
    }
}

/// The duration one outcome reports, if any: dispatch failures report none.
pub open spec fn spec_duration_of(outcome: CallOutcome) -> Option<u64> {
    match outcome {
        CallOutcome::Success { duration_ms, .. } => duration_ms,
        CallOutcome::ApplicationError { duration_ms, .. } => duration_ms,
        CallOutcome::DispatchFailure { .. } => None,
    }
}

/// The retry count one outcome reports, if any.
pub open spec fn spec_retries_of(outcome: CallOutcome) -> Option<u32> {
    match outcome {
        CallOutcome::Success { retries, .. } => retries,
        CallOutcome::ApplicationError { retries, .. } => retries,
        CallOutcome::DispatchFailure { .. } => None,
    }
}

/// The breakdown lines name pairwise distinct errors.
pub open spec fn spec_distinct_keys(bd: Seq<(ErrorKey, u64)>) -> bool {
    forall|i: int, j: int|
        0 <= i < j < bd.len() ==> !spec_key_matches(bd[i].0, bd[j].0)
}

/// Every breakdown line was seen at least once and at most `bound` times.
pub open spec fn spec_counts_within(bd: Seq<(ErrorKey, u64)>, bound: int) -> bool {
    forall|i: int| 0 <= i < bd.len() ==> 1 <= (#[trigger] bd[i]).1 <= bound
}

/// Whether a breakdown already has a line for this key.
pub open spec fn spec_seen(bd: Seq<(ErrorKey, u64)>, key: ErrorKey) -> bool {
    exists|i: int| 0 <= i < bd.len() && spec_key_matches((#[trigger] bd[i]).0, key)
}

/// The new breakdown is the old one with one added on the single line
/// matching the key, and every other line untouched.
pub open spec fn spec_bumped(
    old_bd: Seq<(ErrorKey, u64)>,
    new_bd: Seq<(ErrorKey, u64)>,
    key: ErrorKey,
) -> bool {
    &&& new_bd.len() == old_bd.len()
    &&& exists|i: int|
        {
            &&& 0 <= i < old_bd.len()
            &&& spec_key_matches((#[trigger] old_bd[i]).0, key)
            &&& new_bd[i].0 == old_bd[i].0
            &&& new_bd[i].1 == old_bd[i].1 + 1
            &&& forall|j: int| 0 <= j < old_bd.len() && j != i ==> new_bd[j] == old_bd[j]
        }
}

/// Running statistics of one fixed-batch stress run.
pub struct BatchStats {
    /// Replies without an application error.
    pub success: u64,
    /// Application errors and dispatch failures together.
    pub errors: u64,
    /// Smallest reported duration; the largest representable value until a
    /// first duration arrives.
    pub min_duration_ms: u64,
    /// Largest reported duration; zero until a first duration arrives.
    pub max_duration_ms: u64,
    /// Sum of all reported durations.
    pub total_duration_ms: u64,
    /// How many replies reported a duration.
    pub duration_count: u64,
    /// Sum of all reported retry counts.
    pub total_retries: u64,
    /// Largest reported retry count.
    pub max_retries: u32,
    /// How many replies reported at least one retry.
    pub calls_with_retries: u64,
    /// One line per distinct error, with how often it was seen.
    pub error_breakdown: Vec<(ErrorKey, u64)>,
}

impl BatchStats {
    /// The breakdown lines name pairwise distinct errors, and each was seen
    /// at least once and no more often than there were errors at all.
    pub open spec fn wf(self) -> bool {
        &&& spec_distinct_keys(self.error_breakdown@)
        &&& spec_counts_within(self.error_breakdown@, self.errors as int)
    }

    /// Fresh statistics: nothing seen yet.
    pub fn new() -> (r: BatchStats)
        ensures
            r.wf(),
            r.success == 0,
            r.errors == 0,
            r.min_duration_ms == u64::MAX,
            r.max_duration_ms == 0,
            r.total_duration_ms == 0,
            r.duration_count == 0,
            r.total_retries == 0,
            r.max_retries == 0,
            r.calls_with_retries == 0,
            r.error_breakdown@ == Seq::<(ErrorKey, u64)>::empty(),
    {
        BatchStats {
            success: 0,
            errors: 0,
            min_duration_ms: u64::MAX,
            max_duration_ms: 0,
            total_duration_ms: 0,
            duration_count: 0,
            total_retries: 0,
            max_retries: 0,
            calls_with_retries: 0,
            error_breakdown: Vec::new(),
        }
    }

    /// Whether another outcome can still be recorded exactly.
    pub fn can_record(&self) -> (r: bool)
        ensures
            r == (self.success < u64::MAX && self.errors < u64::MAX && self.duration_count
                < u64::MAX && self.calls_with_retries < u64::MAX),
    {
        self.success < u64::MAX && self.errors < u64::MAX && self.duration_count < u64::MAX
            && self.calls_with_retries < u64::MAX
    }

    /// Record one completed call: a success or an error is tallied, a
    /// reported duration widens the min/max spread and joins the sum, a
    /// reported retry count joins the retry figures, and an error joins its
    /// breakdown line — a new line for an unseen error, one more on the line
    /// of a seen one.
    pub fn record(&mut self, outcome: CallOutcome)
        requires
            old(self).wf(),
            old(self).success < u64::MAX,
            old(self).errors < u64::MAX,
            old(self).duration_count < u64::MAX,
            old(self).calls_with_retries < u64::MAX,
        ensures
            final(self).wf(),
            final(self).success == old(self).success + (if outcome matches CallOutcome::Success {
                ..
            } {
                1int
            } else {
                0int
            }),
            final(self).errors == old(self).errors + (if outcome matches CallOutcome::Success {
                ..
            } {
                0int
            } else {
                1int
            }),
            final(self).min_duration_ms == (match spec_duration_of(outcome) {
                Some(d) => if d < old(self).min_duration_ms {
                    d
                } else {
                    old(self).min_duration_ms
                },
                None => old(self).min_duration_ms,
            }),
            final(self).max_duration_ms == (match spec_duration_of(outcome) {
                Some(d) => if d > old(self).max_duration_ms {
                    d
                } else {
                    old(self).max_duration_ms
                },
                None => old(self).max_duration_ms,
            }),
            final(self).total_duration_ms == (match spec_duration_of(outcome) {
                Some(d) => crate::metrics::spec_sat_add(old(self).total_duration_ms, d),
                None => old(self).total_duration_ms,
            }),
            final(self).duration_count == old(self).duration_count + (match spec_duration_of(
                outcome,
            ) {
                Some(_) => 1int,
                None => 0int,
            }),
            final(self).total_retries == (match spec_retries_of(outcome) {
                Some(r) => crate::metrics::spec_sat_add(old(self).total_retries, r as u64),
                None => old(self).total_retries,
            }),
            final(self).max_retries == (match spec_retries_of(outcome) {
                Some(r) => if r > old(self).max_retries {
                    r
                } else {
                    old(self).max_retries
                },
                None => old(self).max_retries,
            }),
            final(self).calls_with_retries == old(self).calls_with_retries + (match spec_retries_of(
                outcome,
            ) {
                Some(r) => if r > 0 {
                    1int
                } else {
                    0int
                },
                None => 0int,
            }),
            spec_key_of(outcome) is None ==> final(self).error_breakdown@ == old(
                self,
            ).error_breakdown@,
            spec_key_of(outcome) matches Some(k) ==> ((!spec_seen(old(self).error_breakdown@, k)
                ==> final(self).error_breakdown@ == old(self).error_breakdown@.push((k, 1u64)))
                && (spec_seen(old(self).error_breakdown@, k) ==> spec_bumped(
                old(self).error_breakdown@,
                final(self).error_breakdown@,
                k,
            ))),
    {
        let key = match outcome {
            CallOutcome::Success { duration_ms, retries } => {
                self.success = self.success + 1;
                self.note_duration(duration_ms);
                self.note_retries(retries);
                None
            },
            CallOutcome::ApplicationError { message, code, duration_ms, retries } => {
                self.errors = self.errors + 1;
                self.note_duration(duration_ms);
                self.note_retries(retries);
                Some(ErrorKey::Application { message, code })
            },
            CallOutcome::DispatchFailure { cause } => {
                self.errors = self.errors + 1;
                Some(ErrorKey::Dispatch { cause })
            },
        };
        if let Some(k) = key {
            self.bump_breakdown(k);
        }
    }

    /// Find this key's line and add one to it, or open a new line for it.
    fn bump_breakdown(&mut self, key: ErrorKey)
        requires
            old(self).errors >= 1,
            spec_distinct_keys(old(self).error_breakdown@),
            spec_counts_within(old(self).error_breakdown@, old(self).errors - 1),
        ensures
            final(self).wf(),
            final(self).success == old(self).success,
            final(self).errors == old(self).errors,
            final(self).min_duration_ms == old(self).min_duration_ms,
            final(self).max_duration_ms == old(self).max_duration_ms,
            final(self).total_duration_ms == old(self).total_duration_ms,
            final(self).duration_count == old(self).duration_count,
            final(self).total_retries == old(self).total_retries,
            final(self).max_retries == old(self).max_retries,
            final(self).calls_with_retries == old(self).calls_with_retries,
            !spec_seen(old(self).error_breakdown@, key) ==> final(self).error_breakdown@ == old(
                self,
            ).error_breakdown@.push((key, 1u64)),
            spec_seen(old(self).error_breakdown@, key) ==> spec_bumped(
                old(self).error_breakdown@,
                final(self).error_breakdown@,
                key,
            ),
    {
        let ghost pre = *self;
        let mut i: usize = 0;
        while i < self.error_breakdown.len()
            invariant
                *self == pre,
                pre == *old(self),
                pre.errors >= 1,
                spec_distinct_keys(pre.error_breakdown@),
                spec_counts_within(pre.error_breakdown@, pre.errors - 1),
                i <= self.error_breakdown@.len(),
                forall|j: int|
                    0 <= j < i ==> !spec_key_matches((#[trigger] self.error_breakdown@[j]).0, key),
            decreases self.error_breakdown@.len() - i,
        {
            if key_matches(&self.error_breakdown[i].0, &key) {
                let count = self.error_breakdown[i].1;
                self.error_breakdown[i].1 = count + 1;
                proof {
                    let bd = pre.error_breakdown@;
                    assert(spec_seen(bd, key));
                    assert(spec_bumped(bd, self.error_breakdown@, key));
                    assert forall|p: int, q: int|
                        0 <= p < q < self.error_breakdown@.len() implies !spec_key_matches(
                        self.error_breakdown@[p].0,
                        self.error_breakdown@[q].0,
                    ) by {
                        assert(self.error_breakdown@[p].0 == bd[p].0);
                        assert(self.error_breakdown@[q].0 == bd[q].0);
                    }
                }
                return ;
            }
            i = i + 1;
        }
        self.error_breakdown.push((key, 1));
        proof {
            let bd = pre.error_breakdown@;
            assert forall|p: int, q: int|
                0 <= p < q < self.error_breakdown@.len() implies !spec_key_matches(
                self.error_breakdown@[p].0,
                self.error_breakdown@[q].0,
            ) by {
                if q < bd.len() {
                    assert(self.error_breakdown@[p].0 == bd[p].0);
                    assert(self.error_breakdown@[q].0 == bd[q].0);
                } else {
                    assert(self.error_breakdown@[p].0 == bd[p].0);
                    assert(!spec_key_matches(bd[p].0, key));
                }
            }
        }
    }

    /// Fold a reply's reported duration into the spread and the sum.
    fn note_duration(&mut self, duration_ms: Option<u64>)
        requires
            old(self).duration_count < u64::MAX,
        ensures
            final(self).min_duration_ms == (match duration_ms {
                Some(d) => if d < old(self).min_duration_ms {
                    d
                } else {
                    old(self).min_duration_ms
                },
                None => old(self).min_duration_ms,
            }),
            final(self).max_duration_ms == (match duration_ms {
                Some(d) => if d > old(self).max_duration_ms {
                    d
                } else {
                    old(self).max_duration_ms
                },
                None => old(self).max_duration_ms,
            }),
            final(self).total_duration_ms == (match duration_ms {
                Some(d) => crate::metrics::spec_sat_add(old(self).total_duration_ms, d),
                None => old(self).total_duration_ms,
            }),
            final(self).duration_count == old(self).duration_count + (match duration_ms {
                Some(_) => 1int,
                None => 0int,
            }),
            final(self).success == old(self).success,
            final(self).errors == old(self).errors,
            final(self).total_retries == old(self).total_retries,
            final(self).max_retries == old(self).max_retries,
            final(self).calls_with_retries == old(self).calls_with_retries,
            final(self).error_breakdown@ == old(self).error_breakdown@,
    {
        if let Some(d) = duration_ms {
            if d < self.min_duration_ms {
                self.min_duration_ms = d;
            }
            if d > self.max_duration_ms {
                self.max_duration_ms = d;
            }
            self.total_duration_ms = if self.total_duration_ms <= u64::MAX - d {
                self.total_duration_ms + d
            } else {
                u64::MAX
            };
            self.duration_count = self.duration_count + 1;
        }
    }

    /// Fold a reply's reported retry count into the retry figures.
    fn note_retries(&mut self, retries: Option<u32>)
        requires
            old(self).calls_with_retries < u64::MAX,
        ensures
            final(self).total_retries == (match retries {
                Some(r) => crate::metrics::spec_sat_add(old(self).total_retries, r as u64),
                None => old(self).total_retries,
            }),
            final(self).max_retries == (match retries {
                Some(r) => if r > old(self).max_retries {
                    r
                } else {
                    old(self).max_retries
                },
                None => old(self).max_retries,
            }),
            final(self).calls_with_retries == old(self).calls_with_retries + (match retries {
                Some(r) => if r > 0 {
                    1int
                } else {
                    0int
                },
                None => 0int,
            }),
            final(self).success == old(self).success,
            final(self).errors == old(self).errors,
            final(self).min_duration_ms == old(self).min_duration_ms,
            final(self).max_duration_ms == old(self).max_duration_ms,
            final(self).total_duration_ms == old(self).total_duration_ms,
            final(self).duration_count == old(self).duration_count,
            final(self).error_breakdown@ == old(self).error_breakdown@,
    {
        if let Some(r) = retries {
            self.total_retries = if self.total_retries <= u64::MAX - (r as u64) {
                self.total_retries + (r as u64)
            } else {
                u64::MAX
            };
            if r > self.max_retries {
                self.max_retries = r;
            }
            if r > 0 {
                self.calls_with_retries = self.calls_with_retries + 1;
            }
        }
    }
}

/// Whether two breakdown keys name the same error, decided on the texts.
fn key_matches(a: &ErrorKey, b: &ErrorKey) -> (r: bool)
    ensures
        r == spec_key_matches(*a, *b),
{
    match (a, b) {
        (
            ErrorKey::Application { message: ma, code: ca },
            ErrorKey::Application { message: mb, code: cb },
        ) => {
            if *ma == *mb {
                match (ca, cb) {
                    (Some(xa), Some(xb)) => *xa == *xb,
                    (None, None) => true,
                    _ => false,
                }
            } else {
                false
            }
        },
        (ErrorKey::Dispatch { cause: da }, ErrorKey::Dispatch { cause: db }) => *da == *db,
        _ => false,
    }
}

} // verus!
