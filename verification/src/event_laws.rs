//! What holds of every event that is sent for a span.
use crate::event::{add_all, EventView};
use crate::export::span_events;
use crate::exporter::{
    annotation_event, dated_trace_event, describes_process, identity_fields, link_event,
    link_fields, resource_views, span_event, trace_event, with_annotation, with_span,
};
use crate::outside::rfc3339_millis;
use crate::span::{
    Link, SpanData, SpanEvent, SpanId, SpanKind, StatusCode, TraceId, INVALID_SPAN_ID,
};
use crate::text::{hex_count, hex_text, hex_text_is_injective};
use crate::time::{
    durations_are_whole_milliseconds, elapsed_millis, epoch_millis, times_are_whole_milliseconds, Timestamp,
};
use crate::value::{attribute_views, field_of, is_finite_double, AttributeView, FieldView, KeyValue, ScalarView};
use vstd::prelude::*;

verus! {

/// Whether an attribute of this name is among `attributes`.
pub open spec fn names(attributes: Seq<(Seq<char>, AttributeView)>, name: Seq<char>) -> bool {
    exists|i: int| 0 <= i < attributes.len() && (#[trigger] attributes[i]).0 == name
}

/// Whether the attribute at `i` is the last of its name.
pub open spec fn is_last_of_name(attributes: Seq<(Seq<char>, AttributeView)>, i: int) -> bool {
    &&& 0 <= i < attributes.len()
    &&& forall|j: int| i < j < attributes.len() ==> (#[trigger] attributes[j]).0 != attributes[i].0
}

/// Whether no two attributes have one name.
pub open spec fn distinct_keys(attributes: Seq<(Seq<char>, AttributeView)>) -> bool {
    forall|i: int, j: int|
        0 <= i < j < attributes.len() ==> (#[trigger] attributes[i]).0 != (
        #[trigger] attributes[j]).0
}

/// Of several attributes of one name, the last is kept, and a field that no
/// attribute names is left as it was.
pub proof fn last_attribute_is_kept(
    fields: Map<Seq<char>, FieldView>,
    attributes: Seq<(Seq<char>, AttributeView)>,
)
    ensures
        forall|i: int|
            #![trigger attributes[i]]
            is_last_of_name(attributes, i) ==> add_all(fields, attributes).contains_key(
                attributes[i].0,
            ) && add_all(fields, attributes)[attributes[i].0] == field_of(attributes[i].1),
        forall|name: Seq<char>|
            #![trigger add_all(fields, attributes).contains_key(name)]
            #![trigger add_all(fields, attributes)[name]]
            !names(attributes, name) ==> add_all(fields, attributes).contains_key(name)
                == fields.contains_key(name) && add_all(fields, attributes)[name] == fields[name],
    decreases attributes.len(),
{
    if attributes.len() > 0 {
        let rest = attributes.drop_last();
        last_attribute_is_kept(fields, rest);
        assert forall|i: int|
            #![trigger attributes[i]]
            is_last_of_name(attributes, i) implies add_all(fields, attributes).contains_key(
            attributes[i].0,
        ) && add_all(fields, attributes)[attributes[i].0] == field_of(attributes[i].1) by {
            if i < rest.len() {
                assert(rest[i] == attributes[i]);
                assert(attributes[attributes.len() - 1].0 != attributes[i].0);
                assert forall|j: int| i < j < rest.len() implies (#[trigger] rest[j]).0
                    != rest[i].0 by {
                    assert(rest[j] == attributes[j]);
                }
                assert(is_last_of_name(rest, i));
            }
        }
        assert forall|name: Seq<char>|
            #![trigger add_all(fields, attributes).contains_key(name)]
            #![trigger add_all(fields, attributes)[name]]
            !names(attributes, name) implies add_all(fields, attributes).contains_key(name)
            == fields.contains_key(name) && add_all(fields, attributes)[name] == fields[name] by {
            assert(attributes[attributes.len() - 1].0 != name);
            assert forall|i: int| 0 <= i < rest.len() implies (#[trigger] rest[i]).0 != name by {
                assert(rest[i] == attributes[i]);
            }
            assert(!names(rest, name));
            assert(add_all(fields, rest).contains_key(name) == fields.contains_key(name));
        }
    }
}

/// The last attribute of a name that is among `attributes`.
proof fn last_of_name(attributes: Seq<(Seq<char>, AttributeView)>, name: Seq<char>) -> (r: int)
    requires
        names(attributes, name),
    ensures
        is_last_of_name(attributes, r),
        attributes[r].0 == name,
    decreases attributes.len(),
{
    let end = attributes.len() - 1;
    if attributes[end].0 == name {
        end
    } else {
        let rest = attributes.drop_last();
        let i = choose|i: int| 0 <= i < attributes.len() && (#[trigger] attributes[i]).0 == name;
        assert(rest[i] == attributes[i]);
        let r = last_of_name(rest, name);
        assert forall|j: int| r < j < attributes.len() implies (#[trigger] attributes[j]).0
            != attributes[r].0 by {
            if j < end {
                assert(rest[j] == attributes[j]);
            }
        }
        r
    }
}

/// Attributes of different names give the same fields in whatever order they
/// are walked.
pub proof fn attribute_order_is_irrelevant(
    fields: Map<Seq<char>, FieldView>,
    some: Seq<(Seq<char>, AttributeView)>,
    other: Seq<(Seq<char>, AttributeView)>,
)
    requires
        distinct_keys(some),
        distinct_keys(other),
        forall|attribute: (Seq<char>, AttributeView)|
            some.contains(attribute) <==> other.contains(attribute),
    ensures
        add_all(fields, some) == add_all(fields, other),
{
    last_attribute_is_kept(fields, some);
    last_attribute_is_kept(fields, other);
    let left = add_all(fields, some);
    let right = add_all(fields, other);
    assert forall|name: Seq<char>|
        #![trigger left.dom().contains(name)]
        #![trigger right.dom().contains(name)]
        #![trigger left[name]]
        left.contains_key(name) == right.contains_key(name) && left[name] == right[name] by {
        if names(some, name) {
            let i = last_of_name(some, name);
            assert(some.contains(some[i]));
            let j = choose|j: int| 0 <= j < other.len() && other[j] == some[i];
            assert(is_last_of_name(other, j));
        } else if names(other, name) {
            let j = last_of_name(other, name);
            assert(other.contains(other[j]));
            let i = choose|i: int| 0 <= i < some.len() && some[i] == other[j];
            assert(some[i].0 == name);
        } else {
            assert(left.contains_key(name) == fields.contains_key(name));
            assert(right.contains_key(name) == fields.contains_key(name));
            assert(left[name] == fields[name]);
            assert(right[name] == fields[name]);
        }
    }
    assert(left =~= right);
}

/// Without a resource, or with one that has no attributes, the attributes of
/// the span or the span event are not sent either.
pub proof fn attributes_need_a_resource(
    start_millis: i64,
    start_text: Seq<char>,
    trace_id: TraceId,
    parent_id: SpanId,
    attributes: Seq<(Seq<char>, AttributeView)>,
    resource: Option<Seq<(Seq<char>, AttributeView)>>,
)
    requires
        !describes_process(resource),
    ensures
        dated_trace_event(
                start_millis,
                start_text,
                trace_id,
                parent_id,
                attributes,
                resource,
            ).fields
            == identity_fields(start_text, trace_id, parent_id),
{
}

/// With a resource that has attributes, the last attribute of a name is sent
/// under it; a name that only the resource has is sent with the resource's last
/// value for it.
pub proof fn attributes_override_the_resource(
    start_millis: i64,
    start_text: Seq<char>,
    trace_id: TraceId,
    parent_id: SpanId,
    attributes: Seq<(Seq<char>, AttributeView)>,
    resource: Seq<(Seq<char>, AttributeView)>,
)
    requires
        resource.len() > 0,
    ensures
        ({
            let fields = dated_trace_event(
                start_millis,
                start_text,
                trace_id,
                parent_id,
                attributes,
                Some(resource),
            ).fields;
            &&& forall|i: int|
                #![trigger attributes[i]]
                is_last_of_name(attributes, i) ==> fields.contains_key(attributes[i].0)
                    && fields[attributes[i].0] == field_of(attributes[i].1)
            &&& forall|i: int|
                #![trigger resource[i]]
                is_last_of_name(resource, i) && !names(attributes, resource[i].0)
                    ==> fields.contains_key(resource[i].0) && fields[resource[i].0] == field_of(
                    resource[i].1,
                )
        }),
{
    let identity = identity_fields(start_text, trace_id, parent_id);
    last_attribute_is_kept(identity, resource);
    last_attribute_is_kept(add_all(identity, resource), attributes);
}

/// The names of the fields that are not attributes are all different.
proof fn lemma_names_differ()
    ensures
        "start_time"@.len() == 10,
        "trace.trace_id"@.len() == 14,
        "trace.parent_id"@.len() == 15,
        "trace.span_id"@.len() == 13,
        "name"@.len() == 4,
        "duration_ms"@.len() == 11,
        "response.status_code"@.len() == 20,
        "status.message"@.len() == 14,
        "span.kind"@.len() == 9,
        "error"@.len() == 5,
        "meta.annotation_type"@.len() == 20,
        "trace.link.trace_id"@.len() == 19,
        "trace.link.span_id"@.len() == 18,
        "ref_type"@.len() == 8,
        "trace.trace_id"@ != "status.message"@,
        "response.status_code"@ != "meta.annotation_type"@,
{
    reveal_strlit("start_time");
    reveal_strlit("trace.trace_id");
    reveal_strlit("trace.parent_id");
    reveal_strlit("trace.span_id");
    reveal_strlit("name");
    reveal_strlit("duration_ms");
    reveal_strlit("response.status_code");
    reveal_strlit("status.message");
    reveal_strlit("span.kind");
    reveal_strlit("error");
    reveal_strlit("meta.annotation_type");
    reveal_strlit("trace.link.trace_id");
    reveal_strlit("trace.link.span_id");
    reveal_strlit("ref_type");
    assert("trace.trace_id"@[0] != "status.message"@[0]);
    assert("response.status_code"@[0] != "meta.annotation_type"@[0]);
}

/// The nanoseconds from the start of a span to its end, negative if it ended
/// before it began.
pub open spec fn duration_nanos(span: SpanData) -> int {
    (span.end_time.secs - span.start_time.secs) * 1_000_000_000 + span.end_time.nanos
        - span.start_time.nanos
}

/// Whether a field tells these nanoseconds in whole milliseconds, as far as 64
/// bits hold them, and otherwise a number that differs from those by a multiple
/// of two to the 64.
pub open spec fn tells_duration(field: FieldView, nanos: int) -> bool {
    &&& field is Scalar
    &&& field->Scalar_0 is Int
    &&& 0 <= field->Scalar_0->Int_0 < 0x1_0000_0000_0000_0000
    &&& (nanos / 1_000_000 - field->Scalar_0->Int_0) % 0x1_0000_0000_0000_0000 == 0
    &&& nanos < 0x1_0000_0000_0000_0000 * 1_000_000 ==> field->Scalar_0->Int_0 * 1_000_000 <= nanos
        < (field->Scalar_0->Int_0 + 1) * 1_000_000
}

/// Whatever the attributes are named, a span's event tells the span's
/// identifier, name, status and kind; and its duration if it did not end before it
/// began, and whether it failed if its status was set.
pub proof fn span_fields_are_not_overridden(span: SpanData)
    ensures
        ({
            let fields = span_event(span).fields;
            &&& fields.contains_key("trace.span_id"@)
            &&& fields["trace.span_id"@] == FieldView::Scalar(ScalarView::Text(hex_text(span.span_id.0 as int, 16)))
            &&& fields.contains_key("name"@)
            &&& fields["name"@] == FieldView::Scalar(ScalarView::Text(span.name@))
            &&& fields.contains_key("response.status_code"@)
            &&& fields["response.status_code"@] == FieldView::Scalar(
                ScalarView::Int(
                    match span.status_code {
                        StatusCode::Unset => 0,
                        StatusCode::Okay => 1,
                        StatusCode::Error => 2,
                    },
                ),
            )
            &&& fields.contains_key("status.message"@)
            &&& fields["status.message"@] == FieldView::Scalar(ScalarView::Text(span.status_message@))
            &&& fields.contains_key("span.kind"@)
            &&& fields["span.kind"@] == FieldView::Scalar(
                ScalarView::Text(
                    match span.span_kind {
                        SpanKind::Client => "client"@,
                        SpanKind::Server => "server"@,
                        SpanKind::Producer => "producer"@,
                        SpanKind::Consumer => "consumer"@,
                        SpanKind::Internal => "internal"@,
                    },
                ),
            )
            &&& duration_nanos(span) >= 0 ==> fields.contains_key("duration_ms"@)
                && tells_duration(fields["duration_ms"@], duration_nanos(span))
            &&& elapsed_millis(span.start_time, span.end_time) is Some ==> fields["duration_ms"@]
                == FieldView::Scalar(
                ScalarView::Int(elapsed_millis(span.start_time, span.end_time)->0),
            )
            &&& span.status_code != StatusCode::Unset ==> fields.contains_key("error"@)
                && fields["error"@] == FieldView::Scalar(ScalarView::Bool(span.status_code == StatusCode::Error))
        }),
{
    lemma_names_differ();
    durations_are_whole_milliseconds(span.start_time, span.end_time);
}

/// Whether no attribute of the span or of its resource has this name.
pub open spec fn span_leaves_free(span: SpanData, name: Seq<char>) -> bool {
    &&& !names(attribute_views(span.attributes@), name)
    &&& resource_leaves_free(span, name)
}

/// Whether no attribute of the span's resource has this name.
pub open spec fn resource_leaves_free(span: SpanData, name: Seq<char>) -> bool {
    match resource_views(span.resource) {
        Some(resource) => !names(resource, name),
        None => true,
    }
}

/// A field that neither the attributes nor the resource name is what the
/// event's place in its trace makes it.
proof fn lemma_identity_stays(
    start_millis: i64,
    start_text: Seq<char>,
    trace_id: TraceId,
    parent_id: SpanId,
    attributes: Seq<(Seq<char>, AttributeView)>,
    resource: Option<Seq<(Seq<char>, AttributeView)>>,
    name: Seq<char>,
)
    requires
        !names(attributes, name),
        resource is Some ==> !names(resource->0, name),
    ensures
        ({
            let fields = dated_trace_event(
                start_millis,
                start_text,
                trace_id,
                parent_id,
                attributes,
                resource,
            ).fields;
            let identity = identity_fields(start_text, trace_id, parent_id);
            fields.contains_key(name) == identity.contains_key(name) && fields[name]
                == identity[name]
        }),
{
    if describes_process(resource) {
        let identity = identity_fields(start_text, trace_id, parent_id);
        let with_resource = add_all(identity, resource->0);
        last_attribute_is_kept(identity, resource->0);
        last_attribute_is_kept(with_resource, attributes);
        assert(with_resource.contains_key(name) == identity.contains_key(name));
        assert(with_resource[name] == identity[name]);
        assert(add_all(with_resource, attributes).contains_key(name)
            == with_resource.contains_key(name));
    }
}

/// Unless an attribute takes the name, the event of a span has a parent exactly
/// if the span has one: the root of a trace is sent without `trace.parent_id`.
pub proof fn only_a_root_has_no_parent(span: SpanData)
    requires
        span_leaves_free(span, "trace.parent_id"@),
    ensures
        span_event(span).fields.contains_key("trace.parent_id"@) <==> span.parent_span_id.0
            != INVALID_SPAN_ID,
        span.parent_span_id.0 != INVALID_SPAN_ID ==> span_event(span).fields["trace.parent_id"@]
            == FieldView::Scalar(ScalarView::Text(hex_text(span.parent_span_id.0 as int, 16))),
{
    lemma_names_differ();
    lemma_identity_stays(
        epoch_millis(span.start_time) as i64,
        rfc3339_millis(epoch_millis(span.start_time) as i64),
        span.trace_id,
        span.parent_span_id,
        attribute_views(span.attributes@),
        resource_views(span.resource),
        "trace.parent_id"@,
    );
}

/// Unless an attribute takes the name, the event of a span that ended before it
/// began has no duration, and that of a span without a status does not say
/// whether it failed.
pub proof fn unknown_duration_and_outcome_are_not_sent(span: SpanData)
    ensures
        span_leaves_free(span, "duration_ms"@) && duration_nanos(span) < 0 ==> !span_event(span).fields.contains_key("duration_ms"@),
        span_leaves_free(span, "error"@) && span.status_code == StatusCode::Unset ==> !span_event(
            span,
        ).fields.contains_key("error"@),
{
    lemma_names_differ();
    durations_are_whole_milliseconds(span.start_time, span.end_time);
    if span_leaves_free(span, "duration_ms"@) {
        lemma_identity_stays(
            epoch_millis(span.start_time) as i64,
            rfc3339_millis(epoch_millis(span.start_time) as i64),
            span.trace_id,
            span.parent_span_id,
            attribute_views(span.attributes@),
            resource_views(span.resource),
            "duration_ms"@,
        );
    }
    if span_leaves_free(span, "error"@) {
        lemma_identity_stays(
            epoch_millis(span.start_time) as i64,
            rfc3339_millis(epoch_millis(span.start_time) as i64),
            span.trace_id,
            span.parent_span_id,
            attribute_views(span.attributes@),
            resource_views(span.resource),
            "error"@,
        );
    }
}

/// Whatever the attributes are named, the event of something that happened in a
/// span tells its name and its kind, and has no duration.
pub proof fn annotation_fields_are_not_overridden(span: SpanData, event: SpanEvent)
    ensures
        ({
            let fields = annotation_event(span, event).fields;
            &&& fields.contains_key("name"@)
            &&& fields["name"@] == FieldView::Scalar(ScalarView::Text(event.name@))
            &&& fields.contains_key("duration_ms"@)
            &&& fields["duration_ms"@] == FieldView::Scalar(ScalarView::Int(0))
            &&& fields.contains_key("meta.annotation_type"@)
            &&& fields["meta.annotation_type"@] == FieldView::Scalar(ScalarView::Text("span_event"@))
        }),
{
    lemma_names_differ();
}

/// Unless an attribute takes the name, what happened in a span is sent as a
/// child of that span: its parent is the identifier under which the span is sent.
pub proof fn annotations_are_children_of_their_span(span: SpanData, event: SpanEvent)
    requires
        span.span_id.0 != INVALID_SPAN_ID,
        !names(attribute_views(event.attributes@), "trace.parent_id"@),
        resource_leaves_free(span, "trace.parent_id"@),
    ensures
        annotation_event(span, event).fields.contains_key("trace.parent_id"@),
        annotation_event(span, event).fields["trace.parent_id"@] == span_event(
            span,
        ).fields["trace.span_id"@],
{
    lemma_names_differ();
    lemma_identity_stays(
        epoch_millis(event.timestamp) as i64,
        rfc3339_millis(epoch_millis(event.timestamp) as i64),
        span.trace_id,
        span.span_id,
        attribute_views(event.attributes@),
        resource_views(span.resource),
        "trace.parent_id"@,
    );
}

/// Unless an attribute takes the name, a link is sent as a child of its span,
/// and it tells the identifiers of what it links to.
pub proof fn links_are_children_of_their_span(span: SpanData, link: Link)
    ensures
        ({
            let fields = link_event(span, link).fields;
            let attributes = attribute_views(link.attributes@);
            &&& !names(attributes, "trace.parent_id"@) ==> (fields.contains_key("trace.parent_id"@)
                <==> span.span_id.0 != INVALID_SPAN_ID)
            &&& !names(attributes, "trace.parent_id"@) && span.span_id.0 != INVALID_SPAN_ID
                ==> fields["trace.parent_id"@] == span_event(span).fields["trace.span_id"@]
            &&& !names(attributes, "trace.link.trace_id"@) ==> fields.contains_key(
                "trace.link.trace_id"@,
            ) && fields["trace.link.trace_id"@] == FieldView::Scalar(ScalarView::Text(hex_text(link.trace_id.0 as int, 32)))
            &&& !names(attributes, "trace.link.span_id"@) ==> fields.contains_key(
                "trace.link.span_id"@,
            ) && fields["trace.link.span_id"@] == FieldView::Scalar(ScalarView::Text(hex_text(link.span_id.0 as int, 16)))
        }),
{
    lemma_names_differ();
    let own = link_fields(span, link);
    let attributes = attribute_views(link.attributes@);
    last_attribute_is_kept(own, attributes);
    span_fields_are_not_overridden(span);
}

/// Unless an attribute takes the name, all events of a span tell the span's
/// trace, and events of different traces tell different ones.
pub proof fn events_tell_their_trace(
    span: SpanData,
    event: SpanEvent,
    link: Link,
    other: SpanData,
)
    requires
        span_leaves_free(span, "trace.trace_id"@),
        span_leaves_free(other, "trace.trace_id"@),
        !names(attribute_views(event.attributes@), "trace.trace_id"@),
        !names(attribute_views(link.attributes@), "trace.trace_id"@),
    ensures
        span_event(span).fields.contains_key("trace.trace_id"@),
        annotation_event(span, event).fields.contains_key("trace.trace_id"@),
        annotation_event(span, event).fields["trace.trace_id"@] == span_event(
            span,
        ).fields["trace.trace_id"@],
        link_event(span, link).fields.contains_key("trace.trace_id"@),
        link_event(span, link).fields["trace.trace_id"@] == span_event(
            span,
        ).fields["trace.trace_id"@],
        span.trace_id.0 != other.trace_id.0 ==> span_event(span).fields["trace.trace_id"@]
            != span_event(other).fields["trace.trace_id"@],
{
    lemma_names_differ();
    lemma_span_trace(span);
    lemma_span_trace(other);
    lemma_identity_stays(
        epoch_millis(event.timestamp) as i64,
        rfc3339_millis(epoch_millis(event.timestamp) as i64),
        span.trace_id,
        span.span_id,
        attribute_views(event.attributes@),
        resource_views(span.resource),
        "trace.trace_id"@,
    );
    let own = link_fields(span, link);
    last_attribute_is_kept(own, attribute_views(link.attributes@));
    assert(link_event(span, link).fields.contains_key("trace.trace_id"@) == own.contains_key(
        "trace.trace_id"@,
    ));
    if hex_text(span.trace_id.0 as int, 32) == hex_text(other.trace_id.0 as int, 32) {
        assert(hex_count(32) == 0x1_0000_0000_0000_0000_0000_0000_0000_0000) by {
            reveal_with_fuel(hex_count, 33);
        }
        hex_text_is_injective(span.trace_id.0 as int, other.trace_id.0 as int, 32);
    }
}

proof fn lemma_span_trace(span: SpanData)
    requires
        span_leaves_free(span, "trace.trace_id"@),
    ensures
        span_event(span).fields.contains_key("trace.trace_id"@),
        span_event(span).fields["trace.trace_id"@] == FieldView::Scalar(ScalarView::Text(hex_text(span.trace_id.0 as int, 32))),
{
    lemma_names_differ();
    lemma_identity_stays(
        epoch_millis(span.start_time) as i64,
        rfc3339_millis(epoch_millis(span.start_time) as i64),
        span.trace_id,
        span.parent_span_id,
        attribute_views(span.attributes@),
        resource_views(span.resource),
        "trace.trace_id"@,
    );
}

/// Unless an attribute takes the name, `start_time` is the text of the timestamp
/// that the event bears.
pub proof fn start_time_tells_the_timestamp(
    start_time: Timestamp,
    trace_id: TraceId,
    parent_id: SpanId,
    attributes: Seq<(Seq<char>, AttributeView)>,
    resource: Option<Seq<(Seq<char>, AttributeView)>>,
)
    requires
        !names(attributes, "start_time"@),
        resource is Some ==> !names(resource->0, "start_time"@),
    ensures
        ({
            let event = trace_event(start_time, trace_id, parent_id, attributes, resource);
            &&& event.timestamp_millis is Some
            &&& event.fields.contains_key("start_time"@)
            &&& event.fields["start_time"@] == FieldView::Scalar(ScalarView::Text(rfc3339_millis(event.timestamp_millis->0)))
        }),
{
    lemma_names_differ();
    lemma_identity_stays(
        epoch_millis(start_time) as i64,
        rfc3339_millis(epoch_millis(start_time) as i64),
        trace_id,
        parent_id,
        attributes,
        resource,
        "start_time"@,
    );
}

/// Whether JSON can write a scalar: it is no infinity or NaN.
pub open spec fn is_json_scalar(value: ScalarView) -> bool {
    match value {
        ScalarView::Float(bits) => is_finite_double(bits),
        _ => true,
    }
}

/// Whether JSON can write a field's value.
pub open spec fn is_json(value: FieldView) -> bool {
    match value {
        FieldView::Null => true,
        FieldView::Scalar(scalar) => is_json_scalar(scalar),
        FieldView::Array(scalars) => forall|i: int|
            0 <= i < scalars.len() ==> is_json_scalar(#[trigger] scalars[i]),
    }
}

/// Whether JSON can write all fields.
pub open spec fn all_json(fields: Map<Seq<char>, FieldView>) -> bool {
    forall|name: Seq<char>| #[trigger] fields.contains_key(name) ==> is_json(fields[name])
}

/// JSON can write what is sent for an attribute, whatever number it holds.
pub proof fn attributes_become_json(value: AttributeView)
    ensures
        is_json(field_of(value)),
{
    match value {
        AttributeView::F64Array(v) => {
            let finite = |bits: u64| is_finite_double(bits);
            let kept = v.filter(finite);
            assert forall|i: int| 0 <= i < kept.len() implies is_finite_double(
                #[trigger] kept[i],
            ) by {
                v.lemma_filter_pred(finite, i);
            }
        },
        _ => {},
    }
}

proof fn lemma_add_all_json(
    fields: Map<Seq<char>, FieldView>,
    attributes: Seq<(Seq<char>, AttributeView)>,
)
    requires
        all_json(fields),
    ensures
        all_json(add_all(fields, attributes)),
    decreases attributes.len(),
{
    if attributes.len() > 0 {
        lemma_add_all_json(fields, attributes.drop_last());
        attributes_become_json(attributes.last().1);
    }
}

proof fn lemma_trace_event_json(
    start_millis: i64,
    start_text: Seq<char>,
    trace_id: TraceId,
    parent_id: SpanId,
    attributes: Seq<(Seq<char>, AttributeView)>,
    resource: Option<Seq<(Seq<char>, AttributeView)>>,
)
    ensures
        all_json(dated_trace_event(
                start_millis,
                start_text,
                trace_id,
                parent_id,
                attributes,
                resource,
            ).fields),
{
    let identity = identity_fields(start_text, trace_id, parent_id);
    assert(all_json(identity));
    if describes_process(resource) {
        lemma_add_all_json(identity, resource->0);
        lemma_add_all_json(add_all(identity, resource->0), attributes);
    }
}

/// JSON can write every event that is sent for a span.
pub proof fn events_are_json(span: SpanData)
    ensures
        forall|i: int|
            0 <= i < span_events(span).len() ==> all_json((#[trigger] span_events(span)[i]).fields),
{
    assert forall|i: int| 0 <= i < span_events(span).len() implies all_json(
        (#[trigger] span_events(span)[i]).fields,
    ) by {
        if i == 0 {
            lemma_trace_event_json(
                epoch_millis(span.start_time) as i64,
                rfc3339_millis(epoch_millis(span.start_time) as i64),
                span.trace_id,
                span.parent_span_id,
                attribute_views(span.attributes@),
                resource_views(span.resource),
            );
        } else if i <= span.events@.len() {
            let event = span.events@[i - 1];
            assert(span_events(span)[i] == annotation_event(span, event));
            lemma_trace_event_json(
                epoch_millis(event.timestamp) as i64,
                rfc3339_millis(epoch_millis(event.timestamp) as i64),
                span.trace_id,
                span.span_id,
                attribute_views(event.attributes@),
                resource_views(span.resource),
            );
        } else {
            let link = span.links@[i - 1 - span.events@.len()];
            assert(span_events(span)[i] == link_event(span, link));
            lemma_add_all_json(link_fields(span, link), attribute_views(link.attributes@));
        }
    }
}

/// Whether a field of this name tells an event's place in its trace: its start,
/// its trace and, unless it is a root, its parent.
pub open spec fn tells_place(
    fields: Map<Seq<char>, FieldView>,
    name: Seq<char>,
    start_text: Seq<char>,
    trace_id: TraceId,
    parent_id: SpanId,
) -> bool {
    &&& fields.contains_key(name) <==> name == "start_time"@ || name == "trace.trace_id"@ || (name
        == "trace.parent_id"@ && parent_id.0 != 0)
    &&& name == "start_time"@ ==> fields[name] == FieldView::Scalar(ScalarView::Text(start_text))
    &&& name == "trace.trace_id"@ ==> fields[name] == FieldView::Scalar(
        ScalarView::Text(hex_text(trace_id.0 as int, 32)),
    )
    &&& name == "trace.parent_id"@ && parent_id.0 != 0 ==> fields[name] == FieldView::Scalar(
        ScalarView::Text(hex_text(parent_id.0 as int, 16)),
    )
}

/// Apart from attributes, the event that a span and a span event have in common
/// holds its place in its trace and nothing else. It bears the time it is given.
pub proof fn a_trace_event_tells_its_place(
    start_millis: i64,
    start_text: Seq<char>,
    trace_id: TraceId,
    parent_id: SpanId,
    attributes: Seq<(Seq<char>, AttributeView)>,
    resource: Option<Seq<(Seq<char>, AttributeView)>>,
)
    ensures
        ({
            let event = dated_trace_event(
                start_millis,
                start_text,
                trace_id,
                parent_id,
                attributes,
                resource,
            );
            &&& event.timestamp_millis == Some(start_millis)
            &&& forall|name: Seq<char>|
                (resource is None || resource->0.len() == 0 || (!names(attributes, name) && !names(
                    resource->0,
                    name,
                ))) ==> #[trigger] tells_place(
                    event.fields,
                    name,
                    start_text,
                    trace_id,
                    parent_id,
                )
        }),
{
    lemma_names_differ();
    let event = dated_trace_event(
        start_millis,
        start_text,
        trace_id,
        parent_id,
        attributes,
        resource,
    );
    let identity = identity_fields(start_text, trace_id, parent_id);
    assert forall|name: Seq<char>|
        (resource is None || resource->0.len() == 0 || (!names(attributes, name) && !names(
            resource->0,
            name,
        ))) implies #[trigger] tells_place(event.fields, name, start_text, trace_id, parent_id) by {
        if resource is Some && resource->0.len() > 0 {
            lemma_identity_stays(
                start_millis,
                start_text,
                trace_id,
                parent_id,
                attributes,
                resource,
                name,
            );
        }
        assert(tells_place(identity, name, start_text, trace_id, parent_id));
    }
}

/// Whether a timestamp is the whole milliseconds from the Unix epoch to a time,
/// as far as 64 bits with a sign hold them, and zero for a time before the epoch.
pub open spec fn is_dated(millis: i64, time: Timestamp) -> bool {
    let nanos = time.secs * 1_000_000_000 + time.nanos;
    &&& nanos < 0 ==> millis == 0
    &&& nanos >= 0 ==> (nanos / 1_000_000 - millis) % 0x1_0000_0000_0000_0000 == 0
    &&& 0 <= nanos < 0x8000_0000_0000_0000 * 1_000_000 ==> millis * 1_000_000 <= nanos < (millis
        + 1) * 1_000_000
}

/// An event is dated at its start, in whole milliseconds, and is otherwise made
/// from the text of that very date.
pub proof fn trace_events_are_dated_at_their_start(
    start_time: Timestamp,
    trace_id: TraceId,
    parent_id: SpanId,
    attributes: Seq<(Seq<char>, AttributeView)>,
    resource: Option<Seq<(Seq<char>, AttributeView)>>,
)
    ensures
        ({
            let event = trace_event(start_time, trace_id, parent_id, attributes, resource);
            &&& event.timestamp_millis is Some
            &&& is_dated(event.timestamp_millis->0, start_time)
            &&& event == dated_trace_event(
                event.timestamp_millis->0,
                rfc3339_millis(event.timestamp_millis->0),
                trace_id,
                parent_id,
                attributes,
                resource,
            )
        }),
{
    times_are_whole_milliseconds(start_time);
}

/// Whether a field of this name tells of a span as a whole.
pub open spec fn is_span_field(span: SpanData, name: Seq<char>) -> bool {
    ||| name == "trace.span_id"@
    ||| name == "name"@
    ||| name == "response.status_code"@
    ||| name == "status.message"@
    ||| name == "span.kind"@
    ||| name == "duration_ms"@ && duration_nanos(span) >= 0
    ||| name == "error"@ && span.status_code != StatusCode::Unset
}

/// What tells of a span as a whole is the same whatever it is added to, and it
/// leaves the other fields and the timestamp as they were.
pub proof fn adding_a_span_changes_nothing_else(event: EventView, span: SpanData)
    ensures
        with_span(event, span).timestamp_millis == event.timestamp_millis,
        forall|name: Seq<char>|
            #![trigger with_span(event, span).fields.contains_key(name)]
            #![trigger with_span(event, span).fields[name]]
            if is_span_field(span, name) {
                with_span(event, span).fields.contains_key(name) && with_span(
                    event,
                    span,
                ).fields[name] == span_event(span).fields[name]
            } else {
                with_span(event, span).fields.contains_key(name) == event.fields.contains_key(name)
                    && with_span(event, span).fields[name] == event.fields[name]
            },
{
    lemma_names_differ();
    durations_are_whole_milliseconds(span.start_time, span.end_time);
}

/// A span's event bears the whole milliseconds of the span's own start. But for
/// what tells of the span as a whole, it is the event of that start, of the
/// span's trace and parent, and of the attributes of the span and its resource.
pub proof fn a_span_event_is_dated_at_its_start(span: SpanData)
    ensures
        span_event(span).timestamp_millis is Some,
        is_dated(span_event(span).timestamp_millis->0, span.start_time),
        span_leaves_free(span, "start_time"@) ==> span_event(span).fields.contains_key(
            "start_time"@,
        ) && span_event(span).fields["start_time"@] == FieldView::Scalar(
            ScalarView::Text(rfc3339_millis(span_event(span).timestamp_millis->0)),
        ),
        ({
            let common = trace_event(
                span.start_time,
                span.trace_id,
                span.parent_span_id,
                attribute_views(span.attributes@),
                resource_views(span.resource),
            );
            forall|name: Seq<char>|
                #![trigger span_event(span).fields.contains_key(name)]
                #![trigger span_event(span).fields[name]]
                !is_span_field(span, name) ==> span_event(span).fields.contains_key(name)
                    == common.fields.contains_key(name) && span_event(span).fields[name]
                    == common.fields[name]
        }),
{
    lemma_names_differ();
    times_are_whole_milliseconds(span.start_time);
    durations_are_whole_milliseconds(span.start_time, span.end_time);
    if span_leaves_free(span, "start_time"@) {
        start_time_tells_the_timestamp(
            span.start_time,
            span.trace_id,
            span.parent_span_id,
            attribute_views(span.attributes@),
            resource_views(span.resource),
        );
    }
}

/// With a resource that has attributes, a span's event tells the last attribute
/// of each name that it does not itself need, and the resource's last value for
/// each name that no attribute takes.
#[verifier::rlimit(40)]
pub proof fn a_span_event_tells_its_attributes(span: SpanData, resource: Vec<KeyValue>)
    requires
        span.resource == Some(resource),
        resource@.len() > 0,
    ensures
        forall|i: int|
            #![trigger attribute_views(span.attributes@)[i]]
            is_last_of_name(attribute_views(span.attributes@), i) && !is_span_field(
                span,
                span.attributes@[i].key@,
            ) ==> span_event(span).fields.contains_key(span.attributes@[i].key@) && span_event(
                span,
            ).fields[span.attributes@[i].key@] == field_of(span.attributes@[i].value@),
        forall|i: int|
            #![trigger attribute_views(resource@)[i]]
            is_last_of_name(attribute_views(resource@), i) && !is_span_field(
                span,
                resource@[i].key@,
            ) && !names(attribute_views(span.attributes@), resource@[i].key@) ==> span_event(
                span,
            ).fields.contains_key(resource@[i].key@) && span_event(span).fields[resource@[i].key@]
                == field_of(resource@[i].value@),
{
    a_span_event_is_dated_at_its_start(span);
    let millis = epoch_millis(span.start_time) as i64;
    attributes_override_the_resource(
        millis,
        rfc3339_millis(millis),
        span.trace_id,
        span.parent_span_id,
        attribute_views(span.attributes@),
        attribute_views(resource@),
    );
    assert(resource_views(span.resource) == Some(attribute_views(resource@)));
    let attributes = attribute_views(span.attributes@);
    let process = attribute_views(resource@);
    let fields = span_event(span).fields;
    let common = trace_event(
        span.start_time,
        span.trace_id,
        span.parent_span_id,
        attributes,
        resource_views(span.resource),
    ).fields;
    assert forall|i: int|
        #![trigger attributes[i]]
        is_last_of_name(attributes, i) && !is_span_field(
            span,
            span.attributes@[i].key@,
        ) implies fields.contains_key(span.attributes@[i].key@)
        && fields[span.attributes@[i].key@] == field_of(span.attributes@[i].value@) by {
        let name = span.attributes@[i].key@;
        assert(attributes[i] == (name, span.attributes@[i].value@));
        assert(common.contains_key(name));
        assert(fields.contains_key(name) == common.contains_key(name));
        assert(fields[name] == common[name]);
    }
    assert forall|i: int|
        #![trigger process[i]]
        is_last_of_name(process, i) && !is_span_field(span, resource@[i].key@) && !names(
            attributes,
            resource@[i].key@,
        ) implies fields.contains_key(resource@[i].key@) && fields[resource@[i].key@] == field_of(
        resource@[i].value@,
    ) by {
        let name = resource@[i].key@;
        assert(process[i] == (name, resource@[i].value@));
        assert(common.contains_key(name));
        assert(fields.contains_key(name) == common.contains_key(name));
        assert(fields[name] == common[name]);
    }
}

/// Whether a field of this name tells of something that happened in a span.
pub open spec fn is_annotation_field(name: Seq<char>) -> bool {
    name == "duration_ms"@ || name == "name"@ || name == "meta.annotation_type"@
}

/// What tells of something that happened in a span leaves the other fields and
/// the timestamp as they were.
pub proof fn adding_an_annotation_changes_nothing_else(event: EventView, annotation: SpanEvent)
    ensures
        ({
            let after = with_annotation(event, annotation);
            &&& after.timestamp_millis == event.timestamp_millis
            &&& after.fields.contains_key("name"@)
            &&& after.fields["name"@] == FieldView::Scalar(ScalarView::Text(annotation.name@))
            &&& after.fields.contains_key("duration_ms"@)
            &&& after.fields["duration_ms"@] == FieldView::Scalar(ScalarView::Int(0))
            &&& after.fields.contains_key("meta.annotation_type"@)
            &&& after.fields["meta.annotation_type"@] == FieldView::Scalar(
                ScalarView::Text("span_event"@),
            )
            &&& forall|name: Seq<char>|
                #![trigger after.fields.contains_key(name)]
                #![trigger after.fields[name]]
                !is_annotation_field(name) ==> after.fields.contains_key(name)
                    == event.fields.contains_key(name) && after.fields[name] == event.fields[name]
        }),
{
    lemma_names_differ();
}

/// What happened in a span is dated at its own time, in whole milliseconds. But
/// for what tells of it as a whole, its event is that of this time, of the span's
/// trace with the span as the parent, and of its own attributes and those of the
/// span's resource.
pub proof fn an_annotation_is_dated_at_its_own_time(span: SpanData, event: SpanEvent)
    ensures
        annotation_event(span, event).timestamp_millis is Some,
        is_dated(annotation_event(span, event).timestamp_millis->0, event.timestamp),
        !names(attribute_views(event.attributes@), "start_time"@) && resource_leaves_free(
            span,
            "start_time"@,
        ) ==> annotation_event(span, event).fields.contains_key("start_time"@) && annotation_event(
            span,
            event,
        ).fields["start_time"@] == FieldView::Scalar(
            ScalarView::Text(rfc3339_millis(annotation_event(span, event).timestamp_millis->0)),
        ),
        ({
            let common = trace_event(
                event.timestamp,
                span.trace_id,
                span.span_id,
                attribute_views(event.attributes@),
                resource_views(span.resource),
            );
            forall|name: Seq<char>|
                #![trigger annotation_event(span, event).fields.contains_key(name)]
                #![trigger annotation_event(span, event).fields[name]]
                !is_annotation_field(name) ==> annotation_event(span, event).fields.contains_key(
                    name,
                ) == common.fields.contains_key(name) && annotation_event(span, event).fields[name]
                    == common.fields[name]
        }),
{
    lemma_names_differ();
    times_are_whole_milliseconds(event.timestamp);
    if !names(attribute_views(event.attributes@), "start_time"@) && resource_leaves_free(
        span,
        "start_time"@,
    ) {
        start_time_tells_the_timestamp(
            event.timestamp,
            span.trace_id,
            span.span_id,
            attribute_views(event.attributes@),
            resource_views(span.resource),
        );
    }
}

/// With a resource that has attributes, the event of something that happened in
/// a span tells the last attribute of each name that it does not itself need, and
/// the resource's last value for each name that no attribute takes.
pub proof fn an_annotation_tells_its_attributes(
    span: SpanData,
    event: SpanEvent,
    resource: Vec<KeyValue>,
)
    requires
        span.resource == Some(resource),
        resource@.len() > 0,
    ensures
        forall|i: int|
            #![trigger attribute_views(event.attributes@)[i]]
            is_last_of_name(attribute_views(event.attributes@), i) && !is_annotation_field(
                event.attributes@[i].key@,
            ) ==> annotation_event(span, event).fields.contains_key(event.attributes@[i].key@)
                && annotation_event(span, event).fields[event.attributes@[i].key@] == field_of(
                event.attributes@[i].value@,
            ),
        forall|i: int|
            #![trigger attribute_views(resource@)[i]]
            is_last_of_name(attribute_views(resource@), i) && !is_annotation_field(
                resource@[i].key@,
            ) && !names(attribute_views(event.attributes@), resource@[i].key@) ==> annotation_event(
                span,
                event,
            ).fields.contains_key(resource@[i].key@) && annotation_event(
                span,
                event,
            ).fields[resource@[i].key@] == field_of(resource@[i].value@),
{
    an_annotation_is_dated_at_its_own_time(span, event);
    let millis = epoch_millis(event.timestamp) as i64;
    attributes_override_the_resource(
        millis,
        rfc3339_millis(millis),
        span.trace_id,
        span.span_id,
        attribute_views(event.attributes@),
        attribute_views(resource@),
    );
    assert(resource_views(span.resource) == Some(attribute_views(resource@)));
}

/// Whether a field of this name tells of a link: the trace and the span that it
/// leads from, unless that span has no identifier, those that it leads to, that
/// it is a link, and the double zero as its type.
pub open spec fn tells_link(
    fields: Map<Seq<char>, FieldView>,
    name: Seq<char>,
    span: SpanData,
    link: Link,
) -> bool {
    &&& fields.contains_key(name) <==> {
        ||| name == "trace.trace_id"@
        ||| name == "trace.parent_id"@ && span.span_id.0 != 0
        ||| name == "trace.link.trace_id"@
        ||| name == "trace.link.span_id"@
        ||| name == "meta.annotation_type"@
        ||| name == "ref_type"@
    }
    &&& name == "trace.trace_id"@ ==> fields[name] == FieldView::Scalar(
        ScalarView::Text(hex_text(span.trace_id.0 as int, 32)),
    )
    &&& name == "trace.parent_id"@ && span.span_id.0 != 0 ==> fields[name] == FieldView::Scalar(
        ScalarView::Text(hex_text(span.span_id.0 as int, 16)),
    )
    &&& name == "trace.link.trace_id"@ ==> fields[name] == FieldView::Scalar(
        ScalarView::Text(hex_text(link.trace_id.0 as int, 32)),
    )
    &&& name == "trace.link.span_id"@ ==> fields[name] == FieldView::Scalar(
        ScalarView::Text(hex_text(link.span_id.0 as int, 16)),
    )
    &&& name == "meta.annotation_type"@ ==> fields[name] == FieldView::Scalar(
        ScalarView::Text("link"@),
    )
    &&& name == "ref_type"@ ==> fields[name] == FieldView::Scalar(ScalarView::Float(0))
}

/// A link's event bears no time. It tells the last of the link's attributes of
/// each name and, under the names that no attribute takes, of the link and of
/// nothing else.
pub proof fn a_link_event_tells_its_link(span: SpanData, link: Link)
    ensures
        link_event(span, link).timestamp_millis is None,
        forall|i: int|
            #![trigger attribute_views(link.attributes@)[i]]
            is_last_of_name(attribute_views(link.attributes@), i) ==> link_event(
                span,
                link,
            ).fields.contains_key(link.attributes@[i].key@) && link_event(
                span,
                link,
            ).fields[link.attributes@[i].key@] == field_of(link.attributes@[i].value@),
        forall|name: Seq<char>|
            !names(attribute_views(link.attributes@), name) ==> #[trigger] tells_link(
                link_event(span, link).fields,
                name,
                span,
                link,
            ),
{
    lemma_names_differ();
    let own = link_fields(span, link);
    let attributes = attribute_views(link.attributes@);
    last_attribute_is_kept(own, attributes);
    assert forall|name: Seq<char>| !names(attributes, name) implies #[trigger] tells_link(
        link_event(span, link).fields,
        name,
        span,
        link,
    ) by {
        assert(tells_link(own, name, span, link));
        assert(link_event(span, link).fields.contains_key(name) == own.contains_key(name));
        assert(link_event(span, link).fields[name] == own[name]);
    }
}

} // verus!
