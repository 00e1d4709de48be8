//! The settings of the telemetry export.

use vstd::prelude::*;

verus! {

/// Where spans are sent, under which service name, and which log lines pass.
#[derive(Clone, Debug, PartialEq, Eq)]
pub struct TelemetrySettings {
    pub endpoint: String,
    pub service_name: String,
    pub log_filter: String,
}

/// The model of a `TelemetrySettings`.
pub struct TelemetrySettingsView {
    pub endpoint: Seq<char>,
    pub service_name: Seq<char>,
    pub log_filter: Seq<char>,
}

impl View for TelemetrySettings {
    type V = TelemetrySettingsView;

    open spec fn view(&self) -> TelemetrySettingsView {
        TelemetrySettingsView {
            endpoint: self.endpoint@,
            service_name: self.service_name@,
            log_filter: self.log_filter@,
        }
    }
}

/// The endpoint of the collector where none is configured.
pub open spec fn default_endpoint() -> Seq<char> {
    "http://127.0.0.1:4317"@
}

/// The log filter where none is configured.
pub open spec fn default_log_filter() -> Seq<char> {
    "info"@
}

/// The name under which the service reports itself.
pub open spec fn service_name() -> Seq<char> {
    "opentelemetry-demo-app"@
}

/// A configured text, or `fallback` where nothing is configured.
pub open spec fn configured_or(configured: Option<String>, fallback: Seq<char>) -> Seq<char> {
    match configured {
        Some(text) => text@,
        None => fallback,
    }
}

impl TelemetrySettings {
    /// The settings for a configured endpoint and log filter; what is not
    /// configured takes its default, and what is configured is kept as it is.
    pub fn resolve(endpoint: Option<String>, log_filter: Option<String>) -> (settings:
        TelemetrySettings)
        ensures
            settings@.endpoint == configured_or(endpoint, default_endpoint()),
            settings@.log_filter == configured_or(log_filter, default_log_filter()),
            settings@.service_name == service_name(),
    {
        let endpoint = match endpoint {
            Some(text) => text,
            None => String::from_str("http://127.0.0.1:4317"),
        };
        let log_filter = match log_filter {
            Some(text) => text,
            None => String::from_str("info"),
        };
        TelemetrySettings {
            endpoint,
            service_name: String::from_str("opentelemetry-demo-app"),
            log_filter,
        }
    }
}

} // verus!
