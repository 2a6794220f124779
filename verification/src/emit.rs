//! Trusted bridge to the process-wide metrics recorder.
//!
//! These are the only two places where the library reaches the outside
//! metrics machinery. Each hands a fixed metric name and a plain value to
//! whatever recorder the process has installed; nothing is read back.

use vstd::prelude::*;

verus! {

/// Relies on `metrics::with_recorder`, `metrics::Recorder::register_counter`
/// and `metrics::Counter::increment`: registers the named counter with the
/// installed recorder and increments it by `amount`.
#[verifier::external_body]
pub(crate) fn increment_counter(name: &'static str, amount: u64) {
    let key = metrics::Key::from_static_name(name);
    let metadata = metrics::Metadata::new("poem_metrics", metrics::Level::INFO, None);
    let counter = metrics::with_recorder(|recorder| recorder.register_counter(&key, &metadata));
    counter.increment(amount);
}

/// Relies on `metrics::with_recorder`, `metrics::Recorder::register_histogram`
/// and `metrics::Histogram::record`: registers the named histogram with the
/// installed recorder and records the elapsed time, which the `metrics`
/// crate converts to fractional seconds (its `IntoF64` impl for `Duration`).
#[verifier::external_body]
pub(crate) fn record_histogram_nanos(name: &'static str, elapsed_nanos: u64) {
    let key = metrics::Key::from_static_name(name);
    let metadata = metrics::Metadata::new("poem_metrics", metrics::Level::INFO, None);
    let histogram = metrics::with_recorder(|recorder| recorder.register_histogram(&key, &metadata));
    histogram.record(core::time::Duration::from_nanos(elapsed_nanos));
}

} // verus!
