//! What is taken from outside crates without proof.
use crate::pipeline::{BatchTimeout, ClientOptions, TransmissionOptions};
use crate::span::{kind_text, SpanId, SpanKind, TraceId};
use crate::text::hex_text;
use crate::time::{MAX_MILLIS, MIN_MILLIS};
use chrono::TimeZone;
use vstd::prelude::*;

verus! {

/// The error of the Honeycomb client, which is carried through unread.
#[verifier::external_type_specification]
#[verifier::external_body]
pub struct ExHoneycombError(libhoney::Error);

/// The configuration of the tracing SDK, which is carried through unread.
#[verifier::external_type_specification]
#[verifier::external_body]
pub struct ExTraceConfig(opentelemetry::sdk::trace::Config);

/// The RFC 3339 text that `chrono::DateTime::to_rfc3339_opts` writes, to the
/// millisecond and with `Z` for UTC, of a number of milliseconds since the Unix epoch.
pub uninterp spec fn rfc3339_millis(millis: i64) -> Seq<char>;

/// Calls `chrono::DateTime::to_rfc3339_opts` on the UTC date and time of a
/// number of milliseconds since the Unix epoch.
///
/// Claimed: the text is a function of that number alone; how it spells the date
/// is not said. Left out are the numbers for which `chrono` has no date: it
/// would panic on them.
#[verifier::external_body]
pub(crate) fn to_rfc3339_millis(millis: i64) -> (r: String)
    requires
        MIN_MILLIS <= millis <= MAX_MILLIS,
    ensures
        r@ == rfc3339_millis(millis),
{
    #[allow(deprecated)]
    chrono::Utc.timestamp_millis(millis).to_rfc3339_opts(chrono::SecondsFormat::Millis, true)
}

/// Calls the `Display` of `opentelemetry::trace::TraceId`.
///
/// Claimed: it writes all 32 hexadecimal digits of the identifier, in lower case.
#[verifier::external_body]
pub(crate) fn trace_id_text(id: TraceId) -> (r: String)
    ensures
        r@ == hex_text(id.0 as int, 32),
{
    opentelemetry::trace::TraceId::from_bytes(id.0.to_be_bytes()).to_string()
}

/// Calls the `Display` of `opentelemetry::trace::SpanId`.
///
/// Claimed: it writes all 16 hexadecimal digits of the identifier, in lower case.
#[verifier::external_body]
pub(crate) fn span_id_text(id: SpanId) -> (r: String)
    ensures
        r@ == hex_text(id.0 as int, 16),
{
    opentelemetry::trace::SpanId::from_bytes(id.0.to_be_bytes()).to_string()
}

/// Calls the `Display` of `opentelemetry::trace::SpanKind`.
///
/// Claimed: it writes the kind's name in lower case.
#[verifier::external_body]
pub(crate) fn span_kind_text(kind: SpanKind) -> (r: String)
    ensures
        r@ == kind_text(kind),
{
    match kind {
        SpanKind::Client => opentelemetry::trace::SpanKind::Client,
        SpanKind::Server => opentelemetry::trace::SpanKind::Server,
        SpanKind::Producer => opentelemetry::trace::SpanKind::Producer,
        SpanKind::Consumer => opentelemetry::trace::SpanKind::Consumer,
        SpanKind::Internal => opentelemetry::trace::SpanKind::Internal,
    }.to_string()
}

/// Calls `libhoney::client::Options::default`.
///
/// Claimed: it has no API key, names the data set `librust-dataset` and the
/// public Honeycomb host, and samples every event.
#[verifier::external_body]
pub(crate) fn default_client_options() -> (r: ClientOptions)
    ensures
        r.api_key@ == ""@,
        r.dataset@ == "librust-dataset"@,
        r.api_host@ == "https://api.honeycomb.io"@,
        r.sample_rate == 1,
{
    let options = libhoney::client::Options::default();
    ClientOptions {
        api_key: options.api_key,
        dataset: options.dataset,
        api_host: options.api_host,
        sample_rate: options.sample_rate,
    }
}

/// Calls `libhoney::transmission::Options::default`.
///
/// Claimed: batches of 50 events, 10 of them at a time, sent after 100
/// milliseconds at the latest; 10000 events may wait; nothing is added to the user agent.
#[verifier::external_body]
pub(crate) fn default_transmission_options() -> (r: TransmissionOptions)
    ensures
        r.max_batch_size == 50,
        r.max_concurrent_batches == 10,
        r.batch_timeout == (BatchTimeout { secs: 0, nanos: 100_000_000 }),
        r.pending_work_capacity == 10_000,
        r.user_agent_addition is None,
{
    let options = libhoney::transmission::Options::default();
    let timeout = options.batch_timeout;
    TransmissionOptions {
        max_batch_size: options.max_batch_size,
        max_concurrent_batches: options.max_concurrent_batches,
        batch_timeout: BatchTimeout { secs: timeout.as_secs(), nanos: timeout.subsec_nanos() },
        pending_work_capacity: options.pending_work_capacity,
        user_agent_addition: options.user_agent_addition,
    }
}

} // verus!
