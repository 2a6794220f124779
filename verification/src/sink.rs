//! An in-memory metrics sink and its mathematical model.
//!
//! The interceptor's reporting rules are stated over [`SinkModel`], the
//! ghost view of a sink: a success counter, an error counter, and the
//! sequence of recorded latency samples (in nanoseconds). [`MetricsSink`]
//! is an executable sink holding exactly that state, so the reporting
//! logic can be verified against it and exercised by tests.

use vstd::prelude::*;

verus! {

/// The outcome of one invocation of the wrapped handler, as far as the
/// metrics sink is concerned: either the handler succeeded after
/// `latency_nanos` nanoseconds, or it failed.
#[derive(Clone, Copy, Debug)]
pub enum Outcome {
    Succeeded { latency_nanos: u64 },
    Failed,
}

/// The mathematical state of a metrics sink: how often each counter has
/// been incremented and which latency samples the histogram has received.
#[verifier::ext_equal]
pub struct SinkModel {
    /// Value of the `http_requests_total` counter.
    pub total: nat,
    /// Value of the `http_requests_error` counter.
    pub errors: nat,
    /// Samples recorded into `http_requests_duration_seconds`, in
    /// nanoseconds, oldest first.
    pub samples: Seq<u64>,
}

/// What one reported outcome does to a sink: a success increments the
/// total counter and appends exactly one latency sample; a failure
/// increments the error counter and leaves the samples untouched.
pub open spec fn apply_outcome(m: SinkModel, o: Outcome) -> SinkModel {
    match o {
        Outcome::Succeeded { latency_nanos } => SinkModel {
            total: m.total + 1,
            errors: m.errors,
            samples: m.samples.push(latency_nanos),
        },
        Outcome::Failed => SinkModel {
            total: m.total,
            errors: m.errors + 1,
            samples: m.samples,
        },
    }
}

/// A sequence of outcomes reported one after another, oldest first.
pub open spec fn apply_outcomes(m: SinkModel, os: Seq<Outcome>) -> SinkModel
    decreases os.len(),
{
    if os.len() == 0 {
        m
    } else {
        apply_outcomes(apply_outcome(m, os[0]), os.drop_first())
    }
}

/// How many of the outcomes are successes.
pub open spec fn count_successes(os: Seq<Outcome>) -> nat
    decreases os.len(),
{
    if os.len() == 0 {
        0
    } else {
        (if os[0] is Succeeded { 1 as nat } else { 0 as nat }) + count_successes(os.drop_first())
    }
}

/// The latency samples that a sequence of outcomes contributes to the
/// histogram, oldest first: one per success, none per failure.
pub open spec fn success_latencies(os: Seq<Outcome>) -> Seq<u64>
    decreases os.len(),
{
    if os.len() == 0 {
        Seq::empty()
    } else {
        (match os[0] {
            Outcome::Succeeded { latency_nanos } => seq![latency_nanos],
            Outcome::Failed => Seq::empty(),
        }) + success_latencies(os.drop_first())
    }
}

/// An in-memory metrics sink: the counters and the histogram samples of
/// the three fixed metrics, kept as plain values.
pub struct MetricsSink {
    /// Value of the `http_requests_total` counter.
    pub total: u64,
    /// Value of the `http_requests_error` counter.
    pub errors: u64,
    /// Samples recorded into `http_requests_duration_seconds`, in
    /// nanoseconds, oldest first.
    pub samples: Vec<u64>,
}

impl View for MetricsSink {
    type V = SinkModel;

    open spec fn view(&self) -> SinkModel {
        SinkModel {
            total: self.total as nat,
            errors: self.errors as nat,
            samples: self.samples@,
        }
    }
}

impl MetricsSink {
    /// A fresh sink: both counters zero, no samples recorded.
    pub fn new() -> (r: MetricsSink)
        ensures
            r@.total == 0,
            r@.errors == 0,
            r@.samples == Seq::<u64>::empty(),
    {
        MetricsSink { total: 0, errors: 0, samples: Vec::new() }
    }
}

} // verus!
