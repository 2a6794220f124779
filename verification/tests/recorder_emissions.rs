//! Tests of the real emission path: a recording `metrics::Recorder` is
//! installed locally, the reporting step runs against it, and the exact
//! metric names and values that reached the recorder are checked.

use std::sync::{Arc, Mutex};

use poem_metrics::middleware::HttpMetricMiddleware;

#[derive(Default)]
struct EmissionLog {
    increments: Mutex<Vec<(String, u64)>>,
    records: Mutex<Vec<(String, f64)>>,
}

struct LogCounter {
    name: String,
    log: Arc<EmissionLog>,
}

impl metrics::CounterFn for LogCounter {
    fn increment(&self, value: u64) {
        self.log.increments.lock().unwrap().push((self.name.clone(), value));
    }

    fn absolute(&self, _value: u64) {}
}

struct LogHistogram {
    name: String,
    log: Arc<EmissionLog>,
}

impl metrics::HistogramFn for LogHistogram {
    fn record(&self, value: f64) {
        self.log.records.lock().unwrap().push((self.name.clone(), value));
    }
}

struct LogRecorder {
    log: Arc<EmissionLog>,
}

impl metrics::Recorder for LogRecorder {
    fn describe_counter(
        &self,
        _key: metrics::KeyName,
        _unit: Option<metrics::Unit>,
        _description: metrics::SharedString,
    ) {
    }

    fn describe_gauge(
        &self,
        _key: metrics::KeyName,
        _unit: Option<metrics::Unit>,
        _description: metrics::SharedString,
    ) {
    }

    fn describe_histogram(
        &self,
        _key: metrics::KeyName,
        _unit: Option<metrics::Unit>,
        _description: metrics::SharedString,
    ) {
    }

    fn register_counter(
        &self,
        key: &metrics::Key,
        _metadata: &metrics::Metadata<'_>,
    ) -> metrics::Counter {
        metrics::Counter::from_arc(Arc::new(LogCounter {
            name: key.name().to_string(),
            log: self.log.clone(),
        }))
    }

    fn register_gauge(
        &self,
        _key: &metrics::Key,
        _metadata: &metrics::Metadata<'_>,
    ) -> metrics::Gauge {
        metrics::Gauge::noop()
    }

    fn register_histogram(
        &self,
        key: &metrics::Key,
        _metadata: &metrics::Metadata<'_>,
    ) -> metrics::Histogram {
        metrics::Histogram::from_arc(Arc::new(LogHistogram {
            name: key.name().to_string(),
            log: self.log.clone(),
        }))
    }
}

#[test]
fn success_emits_total_and_latency() {
    let log = Arc::new(EmissionLog::default());
    let recorder = LogRecorder { log: log.clone() };
    let mw = HttpMetricMiddleware::default();
    let ep = mw.transform(0u8);

    // 250 ms; exactly representable as 0.25 fractional seconds.
    let r: Result<&str, &str> = metrics::with_local_recorder(&recorder, || {
        ep.record_outcome(Ok("ok"), 250_000_000)
    });

    assert_eq!(r, Ok("ok"));
    assert_eq!(
        *log.increments.lock().unwrap(),
        vec![(String::from("http_requests_total"), 1u64)]
    );
    assert_eq!(
        *log.records.lock().unwrap(),
        vec![(String::from("http_requests_duration_seconds"), 0.25f64)]
    );
}

#[test]
fn failure_emits_error_and_no_latency() {
    let log = Arc::new(EmissionLog::default());
    let recorder = LogRecorder { log: log.clone() };
    let mw = HttpMetricMiddleware::default();
    let ep = mw.transform(0u8);

    let r: Result<&str, &str> = metrics::with_local_recorder(&recorder, || {
        ep.record_outcome(Err("boom"), 250_000_000)
    });

    assert_eq!(r, Err("boom"));
    assert_eq!(
        *log.increments.lock().unwrap(),
        vec![(String::from("http_requests_error"), 1u64)]
    );
    assert!(log.records.lock().unwrap().is_empty());
}

#[test]
fn each_call_emits_exactly_one_counter() {
    let log = Arc::new(EmissionLog::default());
    let recorder = LogRecorder { log: log.clone() };
    let mw = HttpMetricMiddleware::default();
    let ep = mw.transform(0u8);

    metrics::with_local_recorder(&recorder, || {
        let _: Result<u8, u8> = ep.record_outcome(Ok(1), 1_000);
        let _: Result<u8, u8> = ep.record_outcome(Err(2), 1_000);
        let _: Result<u8, u8> = ep.record_outcome(Ok(3), 2_000);
    });

    let increments = log.increments.lock().unwrap();
    assert_eq!(increments.len(), 3);
    assert_eq!(
        *increments,
        vec![
            (String::from("http_requests_total"), 1u64),
            (String::from("http_requests_error"), 1u64),
            (String::from("http_requests_total"), 1u64),
        ]
    );
    assert_eq!(log.records.lock().unwrap().len(), 2);
}
