use vstd::prelude::*;

use crate::errors::TelemetryError;
use prometheus::{CounterVec, Encoder, IntGaugeVec, Opts, Registry, TextEncoder};

verus! {

/// A labelled counter family, held opaquely: the underlying metric-vec
/// type cannot be declared to the verifier, its builder type being private
/// to the telemetry crate.
#[verifier::external_body]
pub struct RequestCounters {
    inner: CounterVec,
}

/// A labelled gauge family, held opaquely for the same reason.
#[verifier::external_body]
pub struct LatencyGauges {
    inner: IntGaugeVec,
}

#[verifier::external_type_specification]
#[verifier::external_body]
pub struct ExRegistry(Registry);

#[verifier::external_type_specification]
#[verifier::external_body]
pub struct ExPrometheusError(prometheus::Error);

/// Relies on prometheus's `Opts::new` and `CounterVec::new`: builds a
/// labelled counter family with the two given label dimensions.
#[verifier::external_body]
fn new_counter_vec(name: &str, help: &str, label1: &str, label2: &str) -> (r: Result<
    RequestCounters,
    prometheus::Error,
>) {
    let inner = CounterVec::new(Opts::new(name, help), &[label1, label2])?;
    Ok(RequestCounters { inner })
}

/// Relies on prometheus's `Opts::new` and `GaugeVec::new`: builds a
/// labelled gauge family with the one given label dimension.
#[verifier::external_body]
fn new_gauge_vec(name: &str, help: &str, label: &str) -> (r: Result<
    LatencyGauges,
    prometheus::Error,
>) {
    let inner = IntGaugeVec::new(Opts::new(name, help), &[label])?;
    Ok(LatencyGauges { inner })
}

/// Relies on prometheus's `Registry::new`: a fresh, empty registry.
#[verifier::external_body]
fn new_registry() -> Registry {
    Registry::new()
}

/// Relies on prometheus's `Registry::register`: adds the counter family as
/// a collector; fails on a descriptor clash.
#[verifier::external_body]
fn register_counter_vec(registry: &Registry, counters: &RequestCounters) -> (r: Result<
    (),
    prometheus::Error,
>) {
    registry.register(Box::new(counters.inner.clone()))
}

/// Relies on prometheus's `Registry::register`: adds the gauge family as a
/// collector; fails on a descriptor clash.
#[verifier::external_body]
fn register_gauge_vec(registry: &Registry, gauges: &LatencyGauges) -> (r: Result<
    (),
    prometheus::Error,
>) {
    registry.register(Box::new(gauges.inner.clone()))
}

/// Relies on prometheus's `MetricVec::with_label_values` and
/// `GenericCounter::inc`: increments the counter for the given label pair
/// by one; internally synchronized, safe under concurrent increments.
#[verifier::external_body]
fn counter_inc(counters: &RequestCounters, value1: &str, value2: &str) {
    counters.inner.with_label_values(&[value1, value2]).inc();
}

/// Relies on prometheus's `MetricVec::with_label_values` and
/// `GenericGauge::set`: sets the gauge for the given label to the
/// millisecond count; internally synchronized.
#[verifier::external_body]
fn gauge_set_millis(gauges: &LatencyGauges, value: &str, millis: i64) {
    gauges.inner.with_label_values(&[value]).set(millis);
}

/// Relies on prometheus's `Registry::gather` and
/// `TextEncoder::encode_to_string`: renders everything the registry
/// collected in the text exposition format.
#[verifier::external_body]
fn export_text(registry: &Registry) -> (r: Result<String, prometheus::Error>) {
    TextEncoder::new().encode_to_string(&registry.gather())
}

/// The telemetry sink: request counters by method and endpoint, a latency
/// gauge by endpoint, and the registry that renders them on demand. An
/// injected handle with internally synchronized counters; no process-wide
/// singleton.
pub struct MetricsCollector {
    requests: RequestCounters,
    latency: LatencyGauges,
    registry: Registry,
}

impl MetricsCollector {
    /// Builds the two metric families and registers them; a registration
    /// clash is reported as a `TelemetryError`.
    pub fn new() -> (r: Result<MetricsCollector, TelemetryError>) {
        let requests = match new_counter_vec(
            "http_requests",
            "Total HTTP requests",
            "method",
            "endpoint",
        ) {
            Ok(c) => c,
            Err(_) => {
                return Err(TelemetryError::Registration);
            },
        };
        let latency = match new_gauge_vec(
            "request_latency",
            "Request latency in milliseconds",
            "endpoint",
        ) {
            Ok(g) => g,
            Err(_) => {
                return Err(TelemetryError::Registration);
            },
        };
        let registry = new_registry();
        match register_counter_vec(&registry, &requests) {
            Ok(_) => (),
            Err(_) => {
                return Err(TelemetryError::Registration);
            },
        };
        match register_gauge_vec(&registry, &latency) {
            Ok(_) => (),
            Err(_) => {
                return Err(TelemetryError::Registration);
            },
        };
        Ok(MetricsCollector { requests, latency, registry })
    }

    /// Counts one request for the method and endpoint.
    pub fn record_request(&self, method: &str, endpoint: &str) {
        counter_inc(&self.requests, method, endpoint);
    }

    /// Records the latest latency observed for the endpoint, in
    /// milliseconds.
    pub fn record_latency(&self, endpoint: &str, millis: i64) {
        gauge_set_millis(&self.latency, endpoint, millis);
    }

    /// Renders everything recorded so far in the text exposition format.
    pub fn export_metrics(&self) -> (r: Result<String, TelemetryError>) {
        match export_text(&self.registry) {
            Ok(s) => Ok(s),
            Err(_) => Err(TelemetryError::Encoding),
        }
    }
}

} // verus!
