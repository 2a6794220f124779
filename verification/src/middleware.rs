//! The timing interceptor.
//!
//! [`HttpMetricMiddleware`] turns an inner handler into an
//! [`HttpMetricMiddlewareEndpoint`]. The endpoint's reporting step takes
//! the inner handler's result together with the measured latency, emits
//! exactly one metric outcome, and hands the result back unchanged.
//! Timing and the delegated call itself happen in the surrounding
//! (unverified) request pipeline; everything the interceptor decides is
//! here.

use vstd::prelude::*;

use crate::emit::{increment_counter, record_histogram_nanos};
use crate::sink::{
    apply_outcome, apply_outcomes, count_successes, success_latencies, MetricsSink, Outcome,
    SinkModel,
};

verus! {

/// Middleware that wraps an inner handler with latency and outcome
/// metrics. It holds no state of its own.
pub struct HttpMetricMiddleware;

/// The outcome a result stands for: success carries the measured
/// latency, failure carries none.
pub open spec fn outcome_of<T, E>(res: Result<T, E>, elapsed_nanos: u64) -> Outcome {
    match res {
        Ok(_) => Outcome::Succeeded { latency_nanos: elapsed_nanos },
        Err(_) => Outcome::Failed,
    }
}

impl HttpMetricMiddleware {
    /// Wrap an inner handler. The endpoint holds the handler and nothing
    /// else.
    pub fn transform<E>(&self, ep: E) -> (r: HttpMetricMiddlewareEndpoint<E>)
        ensures
            r.inner == ep,
    {
        HttpMetricMiddlewareEndpoint { inner: ep }
    }
}

impl Default for HttpMetricMiddleware {
    fn default() -> (r: Self)
        ensures
            r == (HttpMetricMiddleware {}),
    {
        HttpMetricMiddleware
    }
}

/// Endpoint produced by [`HttpMetricMiddleware`]: the wrapped inner
/// handler.
pub struct HttpMetricMiddlewareEndpoint<E> {
    /// The wrapped inner handler.
    pub inner: E,
}

/// The counter one outcome increments: the total counter on success,
/// the error counter on failure — never any other, never none.
fn counter_name_for<T, F>(res: &Result<T, F>) -> (name: &'static str)
    ensures
        *res is Ok ==> name@ == "http_requests_total"@,
        *res is Err ==> name@ == "http_requests_error"@,
{
    match res {
        Ok(_) => "http_requests_total",
        Err(_) => "http_requests_error",
    }
}

/// The latency sample one outcome records into the histogram: the
/// measured time on success, nothing on failure.
fn latency_sample_for<T, F>(res: &Result<T, F>, elapsed_nanos: u64) -> (s: Option<u64>)
    ensures
        s == (if *res is Ok {
            Some(elapsed_nanos)
        } else {
            None::<u64>
        }),
{
    match res {
        Ok(_) => Some(elapsed_nanos),
        Err(_) => None,
    }
}

impl<E> HttpMetricMiddlewareEndpoint<E> {
    /// Report one invocation's outcome to the process-wide metrics
    /// recorder and pass the result through unchanged.
    ///
    /// On success `http_requests_total` is incremented by one and the
    /// elapsed time is recorded into `http_requests_duration_seconds`;
    /// on failure `http_requests_error` is incremented by one and no
    /// latency is recorded. The returned value is the argument itself.
    /// What goes out to the recorder is fixed by the contracts of
    /// [`counter_name_for`] and [`latency_sample_for`], branch by branch
    /// the same emission that [`Self::record_outcome_in`] is proved to
    /// make on the sink model.
    pub fn record_outcome<T, F>(&self, res: Result<T, F>, elapsed_nanos: u64) -> (r: Result<T, F>)
        ensures
            r == res,
    {
        increment_counter(counter_name_for(&res), 1);
        match latency_sample_for(&res, elapsed_nanos) {
            Some(sample) => record_histogram_nanos("http_requests_duration_seconds", sample),
            None => {}
        }
        res
    }

    /// Report one invocation's outcome into an in-memory sink and pass
    /// the result through unchanged.
    ///
    /// On success the total counter goes up by one and exactly one
    /// latency sample, equal to `elapsed_nanos`, is appended; on failure
    /// the error counter goes up by one and the samples stay as they
    /// were. Either way the returned value is the argument itself.
    pub fn record_outcome_in<T, F>(
        &self,
        res: Result<T, F>,
        elapsed_nanos: u64,
        sink: &mut MetricsSink,
    ) -> (r: Result<T, F>)
        requires
            old(sink).total < u64::MAX,
            old(sink).errors < u64::MAX,
        ensures
            r == res,
            final(sink)@ == apply_outcome(old(sink)@, outcome_of(res, elapsed_nanos)),
    {
        match res {
            Ok(resp) => {
                sink.total = sink.total + 1;
                sink.samples.push(elapsed_nanos);
                proof {
                    assert(sink@ =~= apply_outcome(old(sink)@, outcome_of(res, elapsed_nanos)));
                }
                Ok(resp)
            }
            Err(err) => {
                sink.errors = sink.errors + 1;
                proof {
                    assert(sink@ =~= apply_outcome(old(sink)@, outcome_of(res, elapsed_nanos)));
                }
                Err(err)
            }
        }
    }
}

/// Reporting an outcome emits exactly one counter increment: the two
/// counters together grow by exactly one, the total counter exactly on
/// success, the error counter exactly on failure — never both, never
/// neither.
pub proof fn lemma_exactly_once_emission(m: SinkModel, o: Outcome)
    ensures
        apply_outcome(m, o).total + apply_outcome(m, o).errors == m.total + m.errors + 1,
        apply_outcome(m, o).total == m.total + (if o is Succeeded { 1 as nat } else { 0 as nat }),
        apply_outcome(m, o).errors == m.errors + (if o is Failed { 1 as nat } else { 0 as nat }),
{
}

/// A success appends exactly one sample, carrying exactly the measured
/// latency; a failure appends none.
pub proof fn lemma_latency_samples(m: SinkModel, o: Outcome)
    ensures
        o is Succeeded ==> apply_outcome(m, o).samples == m.samples.push(o->latency_nanos),
        o is Failed ==> apply_outcome(m, o).samples == m.samples,
{
}

/// Independent invocations reported one after another, in any order the
/// scheduler produced, add up with no cross-talk: the total counter grows
/// by the number of successes, the error counter by the number of
/// failures, the two together by the number of invocations, and the
/// histogram gains exactly the successes' latency samples — none lost,
/// none duplicated.
pub proof fn lemma_independent_emissions(m: SinkModel, os: Seq<Outcome>)
    ensures
        apply_outcomes(m, os).total == m.total + count_successes(os),
        apply_outcomes(m, os).errors == m.errors + os.len() - count_successes(os),
        apply_outcomes(m, os).samples == m.samples + success_latencies(os),
    decreases os.len(),
{
    if os.len() == 0 {
        assert(m.samples + success_latencies(os) =~= m.samples);
    } else {
        let rest = os.drop_first();
        lemma_independent_emissions(apply_outcome(m, os[0]), rest);
        match os[0] {
            Outcome::Succeeded { latency_nanos } => {
                assert(m.samples.push(latency_nanos) + success_latencies(rest) =~= m.samples
                    + (seq![latency_nanos] + success_latencies(rest)));
            }
            Outcome::Failed => {
                assert(m.samples + success_latencies(rest) =~= m.samples + (Seq::<u64>::empty()
                    + success_latencies(rest)));
            }
        }
    }
}

/// Across concurrent invocations no ordering is required between their
/// emissions: whichever of two independently reported outcomes reaches
/// the sink first, the counters end the same and the histogram receives
/// the same collection of samples (only their order can differ).
pub proof fn lemma_emission_order_immaterial(m: SinkModel, a: Outcome, b: Outcome)
    ensures
        apply_outcome(apply_outcome(m, a), b).total == apply_outcome(
            apply_outcome(m, b),
            a,
        ).total,
        apply_outcome(apply_outcome(m, a), b).errors == apply_outcome(
            apply_outcome(m, b),
            a,
        ).errors,
        apply_outcome(apply_outcome(m, a), b).samples.to_multiset() == apply_outcome(
            apply_outcome(m, b),
            a,
        ).samples.to_multiset(),
{
    broadcast use vstd::seq_lib::group_to_multiset_ensures;

    match (a, b) {
        (
            Outcome::Succeeded { latency_nanos: la },
            Outcome::Succeeded { latency_nanos: lb },
        ) => {
            assert(m.samples.push(la).push(lb).to_multiset() =~= m.samples.to_multiset().insert(
                la,
            ).insert(lb));
            assert(m.samples.push(lb).push(la).to_multiset() =~= m.samples.to_multiset().insert(
                lb,
            ).insert(la));
            assert(m.samples.to_multiset().insert(la).insert(lb) =~= m.samples.to_multiset()
                .insert(lb).insert(la));
        }
        _ => {}
    }
}

} // verus!
