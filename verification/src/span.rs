//! Finished spans, as the tracing SDK hands them over.
use crate::time::Timestamp;
use crate::value::KeyValue;
use vstd::prelude::*;

verus! {

/// The identifier of a trace.
#[derive(Debug, Clone, Copy, PartialEq, Eq)]
pub struct TraceId(pub u128);

/// The identifier of a span. Zero identifies no span.
#[derive(Debug, Clone, Copy, PartialEq, Eq)]
pub struct SpanId(pub u64);

/// The number of the [`SpanId`] that identifies no span.
pub const INVALID_SPAN_ID: u64 = 0;

/// The part that a span plays in the calls between services.
#[derive(Debug, Clone, Copy, PartialEq, Eq)]
pub enum SpanKind {
    Client,
    Server,
    Producer,
    Consumer,
    Internal,
}

/// How the work of a span ended.
#[derive(Debug, Clone, Copy, PartialEq, Eq)]
pub enum StatusCode {
    Unset,
    Okay,
    Error,
}

/// Something that happened while a span was open.
#[derive(Debug)]
pub struct SpanEvent {
    pub name: String,
    pub timestamp: Timestamp,
    pub attributes: Vec<KeyValue>,
}

/// A reference from a span to another one.
#[derive(Debug)]
pub struct Link {
    pub trace_id: TraceId,
    pub span_id: SpanId,
    pub attributes: Vec<KeyValue>,
}

/// A finished span.
#[derive(Debug)]
pub struct SpanData {
    pub trace_id: TraceId,
    pub span_id: SpanId,
    pub parent_span_id: SpanId,
    pub span_kind: SpanKind,
    pub name: String,
    pub start_time: Timestamp,
    pub end_time: Timestamp,
    pub attributes: Vec<KeyValue>,
    pub events: Vec<SpanEvent>,
    pub links: Vec<Link>,
    pub status_code: StatusCode,
    pub status_message: String,
    /// The attributes of the process that made the span.
    pub resource: Option<Vec<KeyValue>>,
}

/// The number that is sent for a status.
pub open spec fn status_number(status: StatusCode) -> int {
    match status {
        StatusCode::Unset => 0,
        StatusCode::Okay => 1,
        StatusCode::Error => 2,
    }
}

/// The text that is sent for a span's kind.
pub open spec fn kind_text(kind: SpanKind) -> Seq<char> {
    match kind {
        SpanKind::Client => "client"@,
        SpanKind::Server => "server"@,
        SpanKind::Producer => "producer"@,
        SpanKind::Consumer => "consumer"@,
        SpanKind::Internal => "internal"@,
    }
}

/// A status is sent as its place in the order unset, okay, error, and the kinds
/// of spans are told apart by their texts.
pub proof fn statuses_and_kinds_are_told_apart(status: StatusCode, kind: SpanKind, other: SpanKind)
    ensures
        status_number(status) == 0 <==> status is Unset,
        status_number(status) == 1 <==> status is Okay,
        status_number(status) == 2 <==> status is Error,
        kind_text(kind) == kind_text(other) ==> kind == other,
{
    reveal_strlit("client");
    reveal_strlit("server");
    reveal_strlit("producer");
    reveal_strlit("consumer");
    reveal_strlit("internal");
    assert("client"@[0] == 'c' && "server"@[0] == 's' && "producer"@[0] == 'p' && "consumer"@[0]
        == 'c' && "internal"@[0] == 'i');
    assert("client"@.len() == 6 && "consumer"@.len() == 8);
}

} // verus!
