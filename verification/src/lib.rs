//! A timing interceptor for HTTP request handlers.
//!
//! The middleware wraps an arbitrary inner handler, measures how long each
//! invocation takes, and reports the outcome to a metrics sink: a success
//! increments `http_requests_total` and records the latency into
//! `http_requests_duration_seconds`; a failure increments
//! `http_requests_error` and records no latency. The handler's result is
//! returned to the caller unchanged.

mod emit;
pub mod middleware;
pub mod sink;
