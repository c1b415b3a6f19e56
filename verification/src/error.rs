//! Why an export or a flush failed.
use vstd::prelude::*;

verus! {

/// What is said of a failure of the Honeycomb client.
pub const HONEYCOMB_MESSAGE: &'static str = "Honeycomb error";

/// What is said of a failure because of the shutdown.
pub const SHUTDOWN_MESSAGE: &'static str = "exporter is already shut down";

/// Why an export or a flush failed.
#[derive(Debug)]
pub enum HoneycombExporterError {
    /// The Honeycomb client failed.
    Honeycomb(libhoney::Error),
    /// The exporter was already shut down.
    Shutdown,
}

impl HoneycombExporterError {
    /// The text that describes the failure.
    pub fn message(&self) -> (r: &'static str)
        ensures
            r@ == match self {
                HoneycombExporterError::Honeycomb(_) => "Honeycomb error"@,
                HoneycombExporterError::Shutdown => "exporter is already shut down"@,
            },
    {
        match self {
            HoneycombExporterError::Honeycomb(_) => HONEYCOMB_MESSAGE,
            HoneycombExporterError::Shutdown => SHUTDOWN_MESSAGE,
        }
    }

    /// The name under which the exporter reports failures.
    pub fn exporter_name(&self) -> (r: &'static str)
        ensures
            r@ == "honeycomb"@,
    {
        "honeycomb"
    }
}

} // verus!
