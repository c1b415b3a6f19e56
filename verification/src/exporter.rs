//! The events that are sent for a span.
use crate::event::{add_all, Event, EventView};
use crate::outside::{
    rfc3339_millis, span_id_text, span_kind_text, to_rfc3339_millis, trace_id_text,
};
use crate::span::{
    kind_text, status_number, Link, SpanData, SpanEvent, SpanId, StatusCode, TraceId,
    INVALID_SPAN_ID,
};
use crate::text::hex_text;
use crate::time::{
    elapsed_millis, epoch_millis, has_date, timestamp_from_system_time, Timestamp,
};
use crate::value::{
    attribute_views, AttributeView, FieldValue, FieldView, KeyValue, Scalar, ScalarView,
};
use vstd::prelude::*;

verus! {

/// A field that holds text.
pub open spec fn text_field(s: Seq<char>) -> FieldView {
    FieldView::Scalar(ScalarView::Text(s))
}

/// A field that holds an integer.
pub open spec fn int_field(n: int) -> FieldView {
    FieldView::Scalar(ScalarView::Int(n))
}

/// A field that holds a truth value.
pub open spec fn bool_field(b: bool) -> FieldView {
    FieldView::Scalar(ScalarView::Bool(b))
}

/// The attributes of a resource, if there is one.
pub open spec fn resource_views(resource: Option<Vec<KeyValue>>) -> Option<
    Seq<(Seq<char>, AttributeView)>,
> {
    match resource {
        Some(attributes) => Some(attribute_views(attributes@)),
        None => None,
    }
}

/// Whether `resource` holds any attribute.
pub open spec fn describes_process(resource: Option<Seq<(Seq<char>, AttributeView)>>) -> bool {
    resource is Some && resource->0.len() > 0
}

/// The fields that place an event in its trace. A root has no `trace.parent_id`.
pub open spec fn identity_fields(
    start_text: Seq<char>,
    trace_id: TraceId,
    parent_id: SpanId,
) -> Map<Seq<char>, FieldView> {
    let fields = Map::<Seq<char>, FieldView>::empty().insert(
        "start_time"@,
        text_field(start_text),
    ).insert("trace.trace_id"@, text_field(hex_text(trace_id.0 as int, 32)));
    if parent_id.0 != INVALID_SPAN_ID {
        fields.insert("trace.parent_id"@, text_field(hex_text(parent_id.0 as int, 16)))
    } else {
        fields
    }
}

/// The event that a span and a span event have in common: the fields that place
/// it in its trace, and then, if there is a resource with attributes, those and
/// the event's own attributes, each in place of an earlier field of its name.
///
/// `start_text` is the text of the start, `start_millis`.
pub open spec fn dated_trace_event(
    start_millis: i64,
    start_text: Seq<char>,
    trace_id: TraceId,
    parent_id: SpanId,
    attributes: Seq<(Seq<char>, AttributeView)>,
    resource: Option<Seq<(Seq<char>, AttributeView)>>,
) -> EventView {
    let identity = identity_fields(start_text, trace_id, parent_id);
    EventView {
        timestamp_millis: Some(start_millis),
        fields: if describes_process(resource) {
            add_all(add_all(identity, resource->0), attributes)
        } else {
            identity
        },
    }
}

/// The event that a span and a span event have in common, by its start.
pub open spec fn trace_event(
    start_time: Timestamp,
    trace_id: TraceId,
    parent_id: SpanId,
    attributes: Seq<(Seq<char>, AttributeView)>,
    resource: Option<Seq<(Seq<char>, AttributeView)>>,
) -> EventView {
    let millis = epoch_millis(start_time) as i64;
    dated_trace_event(millis, rfc3339_millis(millis), trace_id, parent_id, attributes, resource)
}

/// An event to which is added what tells of a span as a whole.
pub open spec fn with_span(event: EventView, span: SpanData) -> EventView {
    let named = event.fields.insert(
        "trace.span_id"@,
        text_field(hex_text(span.span_id.0 as int, 16)),
    ).insert("name"@, text_field(span.name@));
    let timed = match elapsed_millis(span.start_time, span.end_time) {
        Some(millis) => named.insert("duration_ms"@, int_field(millis)),
        None => named,
    };
    let described = timed.insert(
        "response.status_code"@,
        int_field(status_number(span.status_code)),
    ).insert("status.message"@, text_field(span.status_message@)).insert(
        "span.kind"@,
        text_field(kind_text(span.span_kind)),
    );
    EventView {
        fields: match span.status_code {
            StatusCode::Unset => described,
            StatusCode::Okay => described.insert("error"@, bool_field(false)),
            StatusCode::Error => described.insert("error"@, bool_field(true)),
        },
        ..event
    }
}

/// The event that is sent for the span itself.
pub open spec fn span_event(span: SpanData) -> EventView {
    with_span(
        trace_event(
            span.start_time,
            span.trace_id,
            span.parent_span_id,
            attribute_views(span.attributes@),
            resource_views(span.resource),
        ),
        span,
    )
}

/// An event to which is added what tells of something that happened in a span.
/// That takes no time.
pub open spec fn with_annotation(event: EventView, annotation: SpanEvent) -> EventView {
    EventView {
        fields: event.fields.insert("duration_ms"@, int_field(0)).insert(
            "name"@,
            text_field(annotation.name@),
        ).insert("meta.annotation_type"@, text_field("span_event"@)),
        ..event
    }
}

/// The event that is sent for something that happened while the span was open.
/// Its parent is the span.
pub open spec fn annotation_event(span: SpanData, event: SpanEvent) -> EventView {
    with_annotation(
        trace_event(
            event.timestamp,
            span.trace_id,
            span.span_id,
            attribute_views(event.attributes@),
            resource_views(span.resource),
        ),
        event,
    )
}

/// The fields of a link's event that are not attributes.
pub open spec fn link_fields(span: SpanData, link: Link) -> Map<Seq<char>, FieldView> {
    let traced = Map::<Seq<char>, FieldView>::empty().insert(
        "trace.trace_id"@,
        text_field(hex_text(span.trace_id.0 as int, 32)),
    );
    let placed = if span.span_id.0 != INVALID_SPAN_ID {
        traced.insert("trace.parent_id"@, text_field(hex_text(span.span_id.0 as int, 16)))
    } else {
        traced
    };
    placed.insert(
        "trace.link.trace_id"@,
        text_field(hex_text(link.trace_id.0 as int, 32)),
    ).insert("trace.link.span_id"@, text_field(hex_text(link.span_id.0 as int, 16))).insert(
        "meta.annotation_type"@,
        text_field("link"@),
    ).insert("ref_type"@, FieldView::Scalar(ScalarView::Float(0)))
}

/// The event that is sent for a link from the span. It has no timestamp of its
/// own, and the link's attributes come last.
pub open spec fn link_event(span: SpanData, link: Link) -> EventView {
    EventView {
        timestamp_millis: None,
        fields: add_all(link_fields(span, link), attribute_views(link.attributes@)),
    }
}

fn text(s: String) -> (r: FieldValue)
    ensures
        r@ == text_field(s@),
{
    FieldValue::Scalar(Scalar::Text(s))
}

/// Makes the events that are sent for spans.
pub struct HoneycombSpanExporter {}

impl HoneycombSpanExporter {
    /// The event that a span and a span event have in common.
    pub fn new_trace_event(
        start_time: Timestamp,
        trace_id: TraceId,
        parent_id: SpanId,
        attributes: &Vec<KeyValue>,
        resource: &Option<Vec<KeyValue>>,
    ) -> (r: Event)
        requires
            has_date(start_time),
        ensures
            r.wf(),
            r@ == trace_event(
                start_time,
                trace_id,
                parent_id,
                attribute_views(attributes@),
                resource_views(*resource),
            ),
    {
        let millis: i64 = timestamp_from_system_time(start_time);
        let text = to_rfc3339_millis(millis);
        Self::dated_trace_event(millis, text, trace_id, parent_id, attributes, resource)
    }

    /// The event that a span and a span event have in common, where the text of
    /// its start is known.
    pub fn dated_trace_event(
        start_millis: i64,
        start_text: String,
        trace_id: TraceId,
        parent_id: SpanId,
        attributes: &Vec<KeyValue>,
        resource: &Option<Vec<KeyValue>>,
    ) -> (r: Event)
        ensures
            r.wf(),
            r@ == dated_trace_event(
                start_millis,
                start_text@,
                trace_id,
                parent_id,
                attribute_views(attributes@),
                resource_views(*resource),
            ),
    {
        let mut event = Event::new();
        event.set_timestamp(start_millis);
        event.add_field("start_time", text(start_text));
        event.add_field("trace.trace_id", text(trace_id_text(trace_id)));
        // Honeycomb takes an event without a parent for the root of its trace.
        if parent_id.0 != INVALID_SPAN_ID {
            event.add_field("trace.parent_id", text(span_id_text(parent_id)));
        }
        match resource {
            Some(process) => {
                if process.len() > 0 {
                    event.add_attributes(process);
                    event.add_attributes(attributes);
                }
            },
            None => {},
        }
        event
    }

    /// The event that is sent for the span itself.
    pub fn span_event(span: &SpanData) -> (r: Event)
        requires
            has_date(span.start_time),
        ensures
            r.wf(),
            r@ == span_event(*span),
    {
        let mut event = Self::new_trace_event(
            span.start_time,
            span.trace_id,
            span.parent_span_id,
            &span.attributes,
            &span.resource,
        );
        Self::add_span(&mut event, span);
        event
    }

    /// Adds to an event what tells of a span as a whole.
    pub fn add_span(event: &mut Event, span: &SpanData)
        requires
            old(event).wf(),
        ensures
            final(event).wf(),
            final(event)@ == with_span(old(event)@, *span),
    {
        event.add_field("trace.span_id", text(span_id_text(span.span_id)));
        event.add_field("name", text(span.name.clone()));
        match span.end_time.millis_since(span.start_time) {
            Some(millis) => {
                event.add_field("duration_ms", FieldValue::Scalar(Scalar::Unsigned(millis)));
            },
            None => {},
        }
        let status: i64 = match span.status_code {
            StatusCode::Unset => 0,
            StatusCode::Okay => 1,
            StatusCode::Error => 2,
        };
        event.add_field("response.status_code", FieldValue::Scalar(Scalar::Signed(status)));
        event.add_field("status.message", text(span.status_message.clone()));
        event.add_field("span.kind", text(span_kind_text(span.span_kind)));
        match span.status_code {
            StatusCode::Unset => {},
            StatusCode::Okay => {
                event.add_field("error", FieldValue::Scalar(Scalar::Bool(false)));
            },
            StatusCode::Error => {
                event.add_field("error", FieldValue::Scalar(Scalar::Bool(true)));
            },
        }
    }

    /// The event that is sent for something that happened while the span was open.
    pub fn annotation_event(span: &SpanData, event: &SpanEvent) -> (r: Event)
        requires
            has_date(event.timestamp),
        ensures
            r.wf(),
            r@ == annotation_event(*span, *event),
    {
        let mut annotation = Self::new_trace_event(
            event.timestamp,
            span.trace_id,
            // The parent is the span in which it happened, not that span's parent.
            span.span_id,
            &event.attributes,
            &span.resource,
        );
        Self::add_annotation(&mut annotation, event);
        annotation
    }

    /// Adds to an event what tells of something that happened in a span.
    pub fn add_annotation(event: &mut Event, annotation: &SpanEvent)
        requires
            old(event).wf(),
        ensures
            final(event).wf(),
            final(event)@ == with_annotation(old(event)@, *annotation),
    {
        event.add_field("duration_ms", FieldValue::Scalar(Scalar::Signed(0)));
        event.add_field("name", text(annotation.name.clone()));
        event.add_field("meta.annotation_type", text("span_event".to_owned()));
    }

    /// The event that is sent for a link from the span.
    pub fn link_event(span: &SpanData, link: &Link) -> (r: Event)
        ensures
            r.wf(),
            r@ == link_event(*span, *link),
    {
        let mut event = Event::new();
        event.add_field("trace.trace_id", text(trace_id_text(span.trace_id)));
        if span.span_id.0 != INVALID_SPAN_ID {
            event.add_field("trace.parent_id", text(span_id_text(span.span_id)));
        }
        event.add_field("trace.link.trace_id", text(trace_id_text(link.trace_id)));
        event.add_field("trace.link.span_id", text(span_id_text(link.span_id)));
        event.add_field("meta.annotation_type", text("link".to_owned()));
        // The bit pattern of the double 0.0.
        event.add_field("ref_type", FieldValue::Scalar(Scalar::Float(0)));
        event.add_attributes(&link.attributes);
        event
    }
}

} // verus!
