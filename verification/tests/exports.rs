use opentelemetry_honeycomb::client::{ClientSlot, HoneycombFlusher};
use opentelemetry_honeycomb::event::Event;
use opentelemetry_honeycomb::export::ExportStep;
use opentelemetry_honeycomb::exporter::HoneycombSpanExporter;
use opentelemetry_honeycomb::processor::{EndAction, HoneycombSpanProcessor};
use opentelemetry_honeycomb::span::{
    Link, SpanData, SpanEvent, SpanId, SpanKind, StatusCode, TraceId,
};
use opentelemetry_honeycomb::time::Timestamp;
use opentelemetry_honeycomb::value::{FieldValue, Scalar};
use opentelemetry_honeycomb::{HoneycombError, HoneycombExporterError};

fn failure() -> HoneycombError {
    HoneycombError {
        message: "queue is full".to_string(),
        kind: libhoney::ErrorKind::ChannelError,
    }
}

fn span(name: &str, events: usize, links: usize) -> SpanData {
    let start = Timestamp { secs: 10, nanos: 0 };
    SpanData {
        trace_id: TraceId(1),
        span_id: SpanId(2),
        parent_span_id: SpanId(0),
        span_kind: SpanKind::Internal,
        name: name.to_string(),
        start_time: start,
        end_time: start,
        attributes: vec![],
        events: (0..events)
            .map(|i| SpanEvent {
                name: format!("{}.{}", name, i),
                timestamp: start,
                attributes: vec![],
            })
            .collect(),
        links: (0..links)
            .map(|_| Link {
                trace_id: TraceId(3),
                span_id: SpanId(4),
                attributes: vec![],
            })
            .collect(),
        status_code: StatusCode::Unset,
        status_message: String::new(),
        resource: None,
    }
}

fn label(event: &Event) -> String {
    let get = |name: &str| {
        event
            .fields()
            .iter()
            .find(|field| field.name == name)
            .map(|field| match &field.value {
                FieldValue::Scalar(Scalar::Text(s)) => s.clone(),
                other => panic!("{:?}", other),
            })
    };
    get("name").unwrap_or_else(|| get("meta.annotation_type").unwrap())
}

/// Runs an export whose client is there for the first `open` spans and fails
/// on the event after `good` others.
fn run(
    batch: Vec<SpanData>,
    open: usize,
    good: usize,
) -> (Vec<String>, Result<(), HoneycombExporterError>) {
    let mut sent = vec![];
    let mut begun = 0;
    let mut step = HoneycombSpanExporter::export(batch);
    loop {
        step = match step {
            ExportStep::AcquireClient(state) => {
                let mut slot = ClientSlot::new(());
                if begun == open {
                    slot.shutdown();
                }
                begun += 1;
                assert!(state.next_has_date());
                state.client(&slot)
            }
            ExportStep::Send(event, state) => {
                sent.push(label(&event));
                assert!(state.next_has_date());
                if sent.len() > good {
                    state.reply(Err(failure()))
                } else {
                    state.reply(Ok(()))
                }
            }
            ExportStep::Finish(result) => return (sent, result),
        };
    }
}

fn batch() -> Vec<SpanData> {
    vec![span("a", 2, 1), span("b", 0, 0), span("c", 0, 2)]
}

const ALL: [&str; 8] = ["a", "a.0", "a.1", "link", "b", "c", "link", "link"];

#[test]
fn everything_is_sent_in_order() {
    let (sent, result) = run(batch(), usize::MAX, usize::MAX);
    assert_eq!(sent, ALL);
    assert!(result.is_ok());
}

#[test]
fn an_export_stops_at_the_first_failure() {
    for good in 0..ALL.len() {
        let (sent, result) = run(batch(), usize::MAX, good);
        assert_eq!(sent, ALL[..good + 1]);
        match result {
            Err(HoneycombExporterError::Honeycomb(err)) => {
                assert_eq!(err.message, "queue is full")
            }
            other => panic!("{:?}", other),
        }
    }
}

#[test]
fn an_export_stops_at_the_shutdown() {
    let before = [0, 4, 5];
    for open in 0..3 {
        let (sent, result) = run(batch(), open, usize::MAX);
        assert_eq!(sent, ALL[..before[open]]);
        assert!(matches!(result, Err(HoneycombExporterError::Shutdown)));
    }
}

#[test]
fn an_empty_export_succeeds_even_after_the_shutdown() {
    let (sent, result) = run(vec![], 0, 0);
    assert!(sent.is_empty());
    assert!(result.is_ok());
}

#[test]
fn a_time_without_a_date_is_noticed_before_its_event() {
    let nowhere = Timestamp {
        secs: 9_000_000_000_000,
        nanos: 0,
    };
    let mut late = span("late", 1, 0);
    late.events[0].timestamp = nowhere;
    match HoneycombSpanExporter::export(vec![late]) {
        ExportStep::AcquireClient(state) => {
            assert!(state.next_has_date());
            match state.client(&ClientSlot::new(())) {
                ExportStep::Send(_, state) => assert!(!state.next_has_date()),
                _ => panic!("the span's own event comes first"),
            }
        }
        _ => panic!("there is a span to begin"),
    }
    let mut lost = span("lost", 0, 0);
    lost.start_time = nowhere;
    match HoneycombSpanExporter::export(vec![lost]) {
        ExportStep::AcquireClient(state) => assert!(!state.next_has_date()),
        _ => panic!("there is a span to begin"),
    }
}

#[test]
fn the_client_is_given_up_once() {
    let mut slot = ClientSlot::new("client");
    assert!(slot.is_open());
    assert_eq!(slot.shutdown(), Some("client"));
    assert!(!slot.is_open());
    assert_eq!(slot.shutdown(), None);
}

#[test]
fn a_flush_passes_on_what_the_client_answered() {
    let flusher = HoneycombFlusher::new((), vec![1, 2]);
    let mut slot = ClientSlot::new(0);
    let good = flusher.flush(&mut slot, |flushes: &mut i32| {
        *flushes += 1;
        Ok(())
    });
    assert!(good.is_ok());
    assert_eq!(slot.client, Some(1));
    let bad = flusher.flush(&mut slot, |flushes: &mut i32| {
        *flushes += 1;
        Err(failure())
    });
    match bad {
        Err(HoneycombExporterError::Honeycomb(err)) => assert_eq!(err.message, "queue is full"),
        other => panic!("{:?}", other),
    }
    assert_eq!(slot.client, Some(2));
    assert_eq!(flusher.clone().responses(), &vec![1, 2]);
    assert_eq!(flusher.client(), &());
}

#[test]
fn a_client_that_is_gone_is_not_asked_to_flush() {
    let flusher = HoneycombFlusher::new((), ());
    let mut slot = ClientSlot::new(0);
    slot.shutdown();
    let result = flusher.flush(&mut slot, |_: &mut i32| panic!("the client is gone"));
    assert!(matches!(result, Err(HoneycombExporterError::Shutdown)));
    assert_eq!(slot.client, None);
    assert!(matches!(
        slot.flush_target(),
        Err(HoneycombExporterError::Shutdown)
    ));
}

#[test]
fn an_export_after_a_failed_flush_is_not_refused() {
    let flusher = HoneycombFlusher::new((), ());
    let mut slot = ClientSlot::new(());
    assert!(flusher.flush(&mut slot, |_: &mut ()| Err(failure())).is_err());
    match HoneycombSpanExporter::export(vec![span("a", 0, 0)]) {
        ExportStep::AcquireClient(state) => match state.client(&slot) {
            ExportStep::Send(event, _) => assert_eq!(label(&event), "a"),
            _ => panic!("the client is there"),
        },
        _ => panic!("there is a span to begin"),
    }
    assert!(flusher.flush(&mut slot, |_: &mut ()| Ok(())).is_ok());
}

#[test]
fn failures_describe_themselves() {
    let shutdown = HoneycombExporterError::Shutdown;
    assert_eq!(shutdown.message(), "exporter is already shut down");
    assert_eq!(shutdown.exporter_name(), "honeycomb");
    let honeycomb = HoneycombExporterError::Honeycomb(failure());
    assert_eq!(honeycomb.message(), "Honeycomb error");
    assert_eq!(honeycomb.exporter_name(), "honeycomb");
}

#[test]
fn an_ended_span_is_exported_alone() {
    let lock: Result<&str, ()> = Ok("exporter");
    match HoneycombSpanProcessor::on_end(lock, span("a", 0, 0)) {
        EndAction::Export(exporter, batch) => {
            assert_eq!(exporter, "exporter");
            assert_eq!(batch.len(), 1);
            assert_eq!(run(batch, usize::MAX, usize::MAX).0, ["a"]);
        }
        EndAction::HandleError(message) => panic!("{}", message),
    }
}

#[test]
fn a_poisoned_lock_is_reported() {
    let message = "HoneycombSpanProcessor's lock has been poisoned";
    let lock: Result<(), ()> = Err(());
    match HoneycombSpanProcessor::on_end(lock, span("a", 0, 0)) {
        EndAction::HandleError(reported) => assert_eq!(reported, message),
        EndAction::Export(_, _) => panic!("nothing can be exported"),
    }
    assert_eq!(HoneycombSpanProcessor::shutdown(lock), Err(message));
    let lock: Result<i32, ()> = Ok(3);
    assert_eq!(HoneycombSpanProcessor::shutdown(lock), Ok(3));
}
