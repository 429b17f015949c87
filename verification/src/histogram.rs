//! The rolling latency histogram that the controller feeds once per tick.
//! The histogram is an outside quantile estimator; the library records
//! samples into it, and quantile queries — which take floating point, which
//! the library does not touch — read the estimator directly where the run
//! is reported.

use vstd::prelude::*;

verus! {

/// Relies on hdrhistogram::Histogram, an outside quantile estimator. The
/// library sees it only through the wrappers below; the estimator itself is
/// public so that reporting can query quantiles on it.
#[verifier::external_body]
pub struct LatencyHistogram {
    pub estimator: hdrhistogram::Histogram<u64>,
}

/// How many samples a histogram has recorded.
pub uninterp spec fn hist_count(h: LatencyHistogram) -> u64;

impl LatencyHistogram {
    /// Relies on hdrhistogram::Histogram::new: an auto-resizing histogram
    /// with three significant digits starts empty; the source returns an
    /// error only for more than five significant digits, so this
    /// construction cannot fail.
    #[verifier::external_body]
    pub fn new() -> (r: LatencyHistogram)
        ensures
            hist_count(r) == 0,
    {
        LatencyHistogram {
            estimator: hdrhistogram::Histogram::new(3).expect(
                "three significant digits are within the supported five",
            ),
        }
    }

    /// Relies on hdrhistogram::Histogram::record: one sample is recorded and
    /// the sample count grows by one, except that the count saturates and
    /// that recording can report a resize failure and change nothing.
    #[verifier::external_body]
    pub fn record(&mut self, value: u64)
        ensures
            hist_count(*old(self)) <= hist_count(*final(self)),
            hist_count(*final(self)) <= hist_count(*old(self)) + 1,
    {
        let _ = self.estimator.record(value);
    }

    /// Relies on hdrhistogram::Histogram::len: the total number of samples
    /// recorded.
    #[verifier::external_body]
    pub fn len(&self) -> (r: u64)
        ensures
            r == hist_count(*self),
    {
        self.estimator.len()
    }
}

} // verus!
