//! Errors of telemetry setup and shutdown.

use opentelemetry_sdk::error::OTelSdkError;
use vstd::prelude::*;

verus! {

/// Result type of telemetry operations.
pub type TelemetryResult<T> = Result<T, TelemetryError>;

/// What went wrong while setting telemetry up or shutting it down.
pub enum TelemetryError {
    /// An error reported by the tracing SDK.
    Trace(OTelSdkError),
    /// A metrics error.
    Metrics(String),
    /// The configuration asks for something that cannot be done.
    Config(String),
    /// An exporter could not be built.
    Exporter(String),
    /// Initialization failed.
    Initialization(String),
    /// Shutdown failed.
    Shutdown(String),
    /// Any other failure.
    Other(String),
}

/// The text that introduces each kind of error in its message.
pub open spec fn error_prefix(e: TelemetryError) -> Seq<char> {
    match e {
        TelemetryError::Trace(_) => "Trace error: "@,
        TelemetryError::Metrics(_) => "Metrics error: "@,
        TelemetryError::Config(_) => "Configuration error: "@,
        TelemetryError::Exporter(_) => "Exporter error: "@,
        TelemetryError::Initialization(_) => "Initialization error: "@,
        TelemetryError::Shutdown(_) => "Shutdown error: "@,
        TelemetryError::Other(_) => "Telemetry error: "@,
    }
}

impl TelemetryError {
    /// The error's message: its kind's prefix, then its detail. For an SDK
    /// error the detail is the SDK error's own text.
    pub fn message(&self) -> (m: String)
        ensures
            error_prefix(*self).is_prefix_of(m@),
            match self {
                TelemetryError::Trace(e) => m@ == "Trace error: "@
                    + crate::sdk::sdk_error_message(*e),
                TelemetryError::Metrics(s) => m@ == "Metrics error: "@ + s@,
                TelemetryError::Config(s) => m@ == "Configuration error: "@ + s@,
                TelemetryError::Exporter(s) => m@ == "Exporter error: "@ + s@,
                TelemetryError::Initialization(s) => m@ == "Initialization error: "@ + s@,
                TelemetryError::Shutdown(s) => m@ == "Shutdown error: "@ + s@,
                TelemetryError::Other(s) => m@ == "Telemetry error: "@ + s@,
            },
    {
        let (prefix, detail): (&str, String) = match self {
            TelemetryError::Trace(e) => ("Trace error: ", crate::sdk::sdk_error_text(e)),
            TelemetryError::Metrics(s) => ("Metrics error: ", s.clone()),
            TelemetryError::Config(s) => ("Configuration error: ", s.clone()),
            TelemetryError::Exporter(s) => ("Exporter error: ", s.clone()),
            TelemetryError::Initialization(s) => ("Initialization error: ", s.clone()),
            TelemetryError::Shutdown(s) => ("Shutdown error: ", s.clone()),
            TelemetryError::Other(s) => ("Telemetry error: ", s.clone()),
        };
        let mut m = prefix.to_owned();
        m.append(detail.as_str());
        assert(m@.subrange(0, prefix@.len() as int) =~= prefix@);
        m
    }
}

/// The result of a shutdown, from the SDK's outcome: success, or a shutdown
/// error carrying the SDK error's message.
pub fn shutdown_outcome(r: Result<(), OTelSdkError>) -> (t: TelemetryResult<()>)
    ensures
        t is Ok <==> r is Ok,
        r matches Err(e) ==> t matches Err(TelemetryError::Shutdown(m)) && m@
            == crate::sdk::sdk_error_message(e),
{
    match r {
        Ok(()) => Ok(()),
        Err(e) => Err(TelemetryError::Shutdown(crate::sdk::sdk_error_text(&e))),
    }
}

impl From<OTelSdkError> for TelemetryError {
    fn from(e: OTelSdkError) -> (t: Self) {
        TelemetryError::Trace(e)
    }
}

impl vstd::std_specs::convert::FromSpecImpl<OTelSdkError> for TelemetryError {
    open spec fn obeys_from_spec() -> bool {
        true
    }

    open spec fn from_spec(e: OTelSdkError) -> Self {
        TelemetryError::Trace(e)
    }
}

impl From<String> for TelemetryError {
    fn from(s: String) -> (e: Self) {
        TelemetryError::Other(s)
    }
}

impl vstd::std_specs::convert::FromSpecImpl<String> for TelemetryError {
    open spec fn obeys_from_spec() -> bool {
        true
    }

    open spec fn from_spec(s: String) -> Self {
        TelemetryError::Other(s)
    }
}

impl<'a> From<&'a str> for TelemetryError {
    fn from(s: &'a str) -> (e: Self)
        ensures
            e matches TelemetryError::Other(t) && t@ == s@,
    {
        TelemetryError::Other(s.to_owned())
    }
}

impl<'a> vstd::std_specs::convert::FromSpecImpl<&'a str> for TelemetryError {
    open spec fn obeys_from_spec() -> bool {
        false
    }

    open spec fn from_spec(s: &'a str) -> Self {
        TelemetryError::Other(choose|t: String| t@ == s@)
    }
}

} // verus!
