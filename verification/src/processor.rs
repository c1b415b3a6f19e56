//! What is done with a span when it ends, and at the shutdown.
use crate::span::SpanData;
use vstd::prelude::*;

verus! {

/// What is reported when the exporter's lock cannot be taken.
pub const LOCK_POISONED: &'static str = "HoneycombSpanProcessor's lock has been poisoned";

/// What is done when a span ends.
pub enum EndAction<G> {
    /// The batch is exported by the locked exporter.
    Export(G, Vec<SpanData>),
    /// The failure is handed to the global error handler.
    HandleError(&'static str),
}

/// Hands each span to the exporter as soon as it ends.
pub struct HoneycombSpanProcessor {}

impl HoneycombSpanProcessor {
    /// What is done when a span ends, given what locking the exporter gave. The
    /// client collects batches itself, so the span is exported at once and alone.
    pub fn on_end<G, P>(lock: Result<G, P>, span: SpanData) -> (r: EndAction<G>)
        ensures
            match lock {
                Ok(exporter) => r matches EndAction::Export(g, batch) && g == exporter && batch@
                    == seq![span],
                Err(_) => r matches EndAction::HandleError(message) && message@ == LOCK_POISONED@,
            },
    {
        match lock {
            Ok(exporter) => {
                let mut batch: Vec<SpanData> = Vec::new();
                batch.push(span);
                EndAction::Export(exporter, batch)
            },
            Err(_) => EndAction::HandleError(LOCK_POISONED),
        }
    }

    /// The exporter to shut down, or the failure to report, given what locking
    /// the exporter gave.
    pub fn shutdown<G, P>(lock: Result<G, P>) -> (r: Result<G, &'static str>)
        ensures
            match lock {
                Ok(exporter) => r == Ok::<G, &'static str>(exporter),
                Err(_) => r matches Err(message) && message@ == LOCK_POISONED@,
            },
    {
        match lock {
            Ok(exporter) => Ok(exporter),
            Err(_) => Err(LOCK_POISONED),
        }
    }
}

} // verus!
