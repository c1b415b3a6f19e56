use chrono::TimeZone;
use opentelemetry_honeycomb::event::Event;
use opentelemetry_honeycomb::exporter::HoneycombSpanExporter;
use opentelemetry_honeycomb::span::{
    Link, SpanData, SpanEvent, SpanId, SpanKind, StatusCode, TraceId,
};
use opentelemetry_honeycomb::time::{timestamp_from_system_time, Timestamp, MAX_MILLIS, MIN_MILLIS};
use opentelemetry_honeycomb::value::{AttributeValue, FieldValue, KeyValue, Scalar};

fn at(secs: i64, nanos: u32) -> Timestamp {
    Timestamp { secs, nanos }
}

fn attribute(key: &str, value: i64) -> KeyValue {
    KeyValue {
        key: key.to_string(),
        value: AttributeValue::I64(value),
    }
}

fn text(s: &str) -> FieldValue {
    FieldValue::Scalar(Scalar::Text(s.to_string()))
}

fn signed(n: i64) -> FieldValue {
    FieldValue::Scalar(Scalar::Signed(n))
}

fn field<'a>(event: &'a Event, name: &str) -> Option<&'a FieldValue> {
    event
        .fields()
        .iter()
        .find(|field| field.name == name)
        .map(|field| &field.value)
}

fn span() -> SpanData {
    SpanData {
        trace_id: TraceId(0x0102_0304_0506_0708_090a_0b0c_0d0e_0f10),
        span_id: SpanId(0xabcdef),
        parent_span_id: SpanId(0x1234),
        span_kind: SpanKind::Server,
        name: "work".to_string(),
        start_time: at(1_600_000_000, 123_456_789),
        end_time: at(1_600_000_001, 124_456_788),
        attributes: vec![attribute("answer", 42)],
        events: vec![],
        links: vec![],
        status_code: StatusCode::Unset,
        status_message: "fine".to_string(),
        resource: Some(vec![attribute("service", 7)]),
    }
}

#[test]
fn a_span_tells_all_about_itself() {
    let event = HoneycombSpanExporter::span_event(&span());
    assert_eq!(event.timestamp_millis(), Some(1_600_000_000_123));
    assert_eq!(
        field(&event, "start_time"),
        Some(&text("2020-09-13T12:26:40.123Z"))
    );
    assert_eq!(
        field(&event, "trace.trace_id"),
        Some(&text("0102030405060708090a0b0c0d0e0f10"))
    );
    assert_eq!(
        field(&event, "trace.parent_id"),
        Some(&text("0000000000001234"))
    );
    assert_eq!(
        field(&event, "trace.span_id"),
        Some(&text("0000000000abcdef"))
    );
    assert_eq!(field(&event, "service"), Some(&signed(7)));
    assert_eq!(field(&event, "answer"), Some(&signed(42)));
    assert_eq!(field(&event, "name"), Some(&text("work")));
    assert_eq!(
        field(&event, "duration_ms"),
        Some(&FieldValue::Scalar(Scalar::Unsigned(1000)))
    );
    assert_eq!(field(&event, "response.status_code"), Some(&signed(0)));
    assert_eq!(field(&event, "status.message"), Some(&text("fine")));
    assert_eq!(field(&event, "span.kind"), Some(&text("server")));
    assert_eq!(field(&event, "error"), None);
    assert_eq!(event.fields().len(), 11);
}

#[test]
fn the_root_has_no_parent() {
    let root = SpanData {
        parent_span_id: SpanId(0),
        ..span()
    };
    assert_eq!(
        field(&HoneycombSpanExporter::span_event(&root), "trace.parent_id"),
        None
    );
}

#[test]
fn the_status_tells_of_failure_once_it_is_set() {
    let outcome = |status_code: StatusCode| {
        let event = HoneycombSpanExporter::span_event(&SpanData {
            status_code,
            ..span()
        });
        let error = match field(&event, "error") {
            Some(FieldValue::Scalar(Scalar::Bool(b))) => Some(*b),
            None => None,
            other => panic!("{:?}", other),
        };
        let number = match field(&event, "response.status_code") {
            Some(FieldValue::Scalar(Scalar::Signed(n))) => *n,
            other => panic!("{:?}", other),
        };
        (number, error)
    };
    assert_eq!(outcome(StatusCode::Unset), (0, None));
    assert_eq!(outcome(StatusCode::Okay), (1, Some(false)));
    assert_eq!(outcome(StatusCode::Error), (2, Some(true)));
    assert_eq!(opentelemetry::trace::StatusCode::Ok as i32, 1);
    assert_eq!(opentelemetry::trace::StatusCode::Error as i32, 2);
}

#[test]
fn every_kind_has_its_name() {
    let kind = |span_kind: SpanKind| {
        let event = HoneycombSpanExporter::span_event(&SpanData {
            span_kind,
            ..span()
        });
        match field(&event, "span.kind") {
            Some(FieldValue::Scalar(Scalar::Text(s))) => s.clone(),
            other => panic!("{:?}", other),
        }
    };
    assert_eq!(kind(SpanKind::Client), "client");
    assert_eq!(kind(SpanKind::Server), "server");
    assert_eq!(kind(SpanKind::Producer), "producer");
    assert_eq!(kind(SpanKind::Consumer), "consumer");
    assert_eq!(kind(SpanKind::Internal), "internal");
}

#[test]
fn a_span_that_ends_before_it_begins_has_no_duration() {
    let backwards = SpanData {
        end_time: at(1_600_000_000, 123_456_788),
        ..span()
    };
    let event = HoneycombSpanExporter::span_event(&backwards);
    assert_eq!(field(&event, "duration_ms"), None);
    let instant = SpanData {
        end_time: at(1_600_000_000, 123_456_789),
        ..span()
    };
    let event = HoneycombSpanExporter::span_event(&instant);
    assert_eq!(
        field(&event, "duration_ms"),
        Some(&FieldValue::Scalar(Scalar::Unsigned(0)))
    );
}

#[test]
fn attributes_are_not_sent_without_a_resource() {
    for resource in [None, Some(vec![])] {
        let event = HoneycombSpanExporter::span_event(&SpanData { resource, ..span() });
        assert_eq!(field(&event, "answer"), None);
        assert_eq!(event.fields().len(), 9);
    }
}

#[test]
fn attributes_override_the_resource_and_the_last_one_counts() {
    let event = HoneycombSpanExporter::new_trace_event(
        at(1, 0),
        TraceId(1),
        SpanId(0),
        &vec![attribute("shared", 1), attribute("shared", 2)],
        &Some(vec![attribute("shared", 3), attribute("own", 4)]),
    );
    assert_eq!(field(&event, "shared"), Some(&signed(2)));
    assert_eq!(field(&event, "own"), Some(&signed(4)));
    assert_eq!(event.fields().len(), 4);
}

#[test]
fn attribute_order_does_not_matter() {
    let make = |attributes: Vec<KeyValue>| {
        let event = HoneycombSpanExporter::span_event(&SpanData {
            attributes,
            ..span()
        });
        (
            format!("{:?}", field(&event, "a")),
            format!("{:?}", field(&event, "b")),
            event.fields().len(),
        )
    };
    assert_eq!(
        make(vec![attribute("a", 1), attribute("b", 2)]),
        make(vec![attribute("b", 2), attribute("a", 1)])
    );
}

#[test]
fn an_attribute_can_take_the_place_of_an_identity_field_only() {
    let event = HoneycombSpanExporter::span_event(&SpanData {
        attributes: vec![attribute("start_time", 1), attribute("name", 2)],
        ..span()
    });
    assert_eq!(field(&event, "start_time"), Some(&signed(1)));
    assert_eq!(field(&event, "name"), Some(&text("work")));
}

#[test]
fn an_annotation_is_a_child_of_its_span() {
    let annotation = SpanEvent {
        name: "cache miss".to_string(),
        timestamp: at(1_600_000_000, 500_000_000),
        attributes: vec![attribute("key", 5)],
    };
    let event = HoneycombSpanExporter::annotation_event(&span(), &annotation);
    assert_eq!(event.timestamp_millis(), Some(1_600_000_000_500));
    assert_eq!(
        field(&event, "start_time"),
        Some(&text("2020-09-13T12:26:40.500Z"))
    );
    assert_eq!(
        field(&event, "trace.trace_id"),
        Some(&text("0102030405060708090a0b0c0d0e0f10"))
    );
    assert_eq!(
        field(&event, "trace.parent_id"),
        field(&HoneycombSpanExporter::span_event(&span()), "trace.span_id")
    );
    assert_eq!(field(&event, "key"), Some(&signed(5)));
    assert_eq!(field(&event, "service"), Some(&signed(7)));
    assert_eq!(field(&event, "duration_ms"), Some(&signed(0)));
    assert_eq!(field(&event, "name"), Some(&text("cache miss")));
    assert_eq!(
        field(&event, "meta.annotation_type"),
        Some(&text("span_event"))
    );
    assert_eq!(event.fields().len(), 8);
}

#[test]
fn a_link_tells_what_it_links_to() {
    let link = Link {
        trace_id: TraceId(u128::MAX),
        span_id: SpanId(u64::MAX),
        attributes: vec![attribute("weight", 9), attribute("ref_type", 1)],
    };
    let event = HoneycombSpanExporter::link_event(&span(), &link);
    assert_eq!(event.timestamp_millis(), None);
    assert_eq!(
        field(&event, "trace.link.trace_id"),
        Some(&text("ffffffffffffffffffffffffffffffff"))
    );
    assert_eq!(
        field(&event, "trace.link.span_id"),
        Some(&text("ffffffffffffffff"))
    );
    assert_eq!(
        field(&event, "trace.parent_id"),
        Some(&text("0000000000abcdef"))
    );
    assert_eq!(field(&event, "meta.annotation_type"), Some(&text("link")));
    assert_eq!(field(&event, "weight"), Some(&signed(9)));
    assert_eq!(field(&event, "ref_type"), Some(&signed(1)));
    assert_eq!(field(&event, "service"), None);
    assert_eq!(event.fields().len(), 7);
}

#[test]
fn a_link_without_attributes_has_the_double_zero() {
    let link = Link {
        trace_id: TraceId(1),
        span_id: SpanId(2),
        attributes: vec![],
    };
    let rootless = SpanData {
        span_id: SpanId(0),
        ..span()
    };
    let event = HoneycombSpanExporter::link_event(&rootless, &link);
    assert_eq!(
        field(&event, "ref_type"),
        Some(&FieldValue::Scalar(Scalar::Float(0.0f64.to_bits())))
    );
    assert_eq!(field(&event, "trace.parent_id"), None);
}

#[test]
fn identifiers_read_as_the_sdk_writes_them() {
    let id = 0x0000_0000_00c0_ffee_u64;
    let event = HoneycombSpanExporter::span_event(&SpanData {
        span_id: SpanId(id),
        ..span()
    });
    assert_eq!(
        field(&event, "trace.span_id"),
        Some(&text(
            &opentelemetry::trace::SpanId::from_bytes(id.to_be_bytes()).to_string()
        ))
    );
}

#[test]
fn an_event_can_be_built_from_a_given_start() {
    let event = HoneycombSpanExporter::dated_trace_event(
        -5,
        "long ago".to_string(),
        TraceId(1),
        SpanId(2),
        &vec![],
        &None,
    );
    assert_eq!(event.timestamp_millis(), Some(-5));
    assert_eq!(field(&event, "start_time"), Some(&text("long ago")));
    assert_eq!(event.fields().len(), 3);
}

#[test]
fn a_field_is_replaced_by_one_of_its_name() {
    let mut event = Event::new();
    assert_eq!(event.timestamp_millis(), None);
    event.add_field("a", signed(1));
    event.add_field("b", signed(2));
    event.add_field("a", FieldValue::Null);
    assert_eq!(event.fields().len(), 2);
    assert_eq!(field(&event, "a"), Some(&FieldValue::Null));
    assert_eq!(field(&event, "b"), Some(&signed(2)));
}

#[test]
fn times_are_told_in_whole_milliseconds() {
    assert_eq!(timestamp_from_system_time(at(0, 0)), 0);
    assert_eq!(timestamp_from_system_time(at(0, 999_999)), 0);
    assert_eq!(timestamp_from_system_time(at(1, 1_999_999)), 1001);
    assert_eq!(timestamp_from_system_time(at(-1, 999_999_999)), 0);
    assert_eq!(timestamp_from_system_time(at(i64::MIN, 0)), 0);
}

#[test]
fn times_far_off_wrap_round() {
    let secs = i64::MAX;
    let expected = (secs as u128 * 1000) as u64 as i64;
    assert_eq!(timestamp_from_system_time(at(secs, 0)), expected);
    assert_eq!(
        at(secs, 0).millis_since(at(0, 0)),
        Some((secs as u128 * 1000) as u64)
    );
    assert_eq!(at(0, 0).millis_since(at(0, 1)), None);
}

#[test]
fn the_calendar_ends_where_the_date_crate_says() {
    assert!(chrono::Utc.timestamp_millis_opt(MAX_MILLIS).single().is_some());
    assert!(chrono::Utc.timestamp_millis_opt(MAX_MILLIS + 1).single().is_none());
    assert!(chrono::Utc.timestamp_millis_opt(MIN_MILLIS).single().is_some());
    assert!(chrono::Utc.timestamp_millis_opt(MIN_MILLIS - 1).single().is_none());
    assert!(at(MAX_MILLIS / 1000, 999_000_000).has_date());
    assert!(!at(MAX_MILLIS / 1000 + 1, 0).has_date());
}

#[test]
fn the_last_date_can_be_sent() {
    let event = HoneycombSpanExporter::new_trace_event(
        at(MAX_MILLIS / 1000, 999_000_000),
        TraceId(1),
        SpanId(0),
        &vec![],
        &None,
    );
    assert_eq!(
        field(&event, "start_time"),
        Some(&text("+262142-12-31T23:59:59.999Z"))
    );
}
