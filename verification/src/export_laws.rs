//! What holds of every course of an export.
use crate::client::{after_shutdown, flush_result, flushes, ClientSlot};
use crate::error::HoneycombExporterError;
use crate::event::{Event, EventView};
use crate::event_laws::{
    an_annotation_is_dated_at_its_own_time, annotation_fields_are_not_overridden, is_dated,
    links_are_children_of_their_span, names,
};
use crate::export::{
    after_client, after_send, batch_events, begin_span, events_between, item_has_date, send_item,
    span_events, AwaitingClient, AwaitingReply, ExportStep, StepView,
};
use crate::exporter::{annotation_event, link_event, span_event};
use crate::span::SpanData;
use crate::text::hex_text;
use crate::time::has_date;
use crate::value::{attribute_views, FieldView, ScalarView};
use vstd::prelude::*;

verus! {

/// The answers that an export gets.
pub struct Answers {
    /// Whether the client is there when the span of this index is to be begun.
    pub open: spec_fn(int) -> bool,
    /// What the client answers to the event that is sent after this many others.
    pub reply: spec_fn(int) -> Result<(), libhoney::Error>,
}

/// Whether the span and the event that a step speaks of are there.
pub open spec fn is_valid(step: StepView) -> bool {
    match step {
        StepView::AcquireClient { batch, next } => 0 <= next < batch.len(),
        StepView::Send { batch, current, item, .. } => 0 <= current < batch.len() && 0 <= item
            < span_events(batch[current]).len(),
        StepView::Finish(_) => true,
    }
}

/// How many spans are not yet done with.
pub open spec fn spans_left(step: StepView) -> int {
    match step {
        StepView::AcquireClient { batch, next } => batch.len() - next,
        StepView::Send { batch, current, .. } => batch.len() - current,
        StepView::Finish(_) => 0,
    }
}

/// How many answers the span in hand still needs.
pub open spec fn events_left(step: StepView) -> int {
    match step {
        StepView::AcquireClient { batch, next } => span_events(batch[next]).len() as int + 1,
        StepView::Send { batch, current, item, .. } => span_events(batch[current]).len() - item,
        StepView::Finish(_) => 0,
    }
}

/// The events sent in all, and the result, of an export that stands at `step`
/// after the events `sent`.
pub open spec fn run(step: StepView, sent: Seq<EventView>, answers: Answers) -> (
    Seq<EventView>,
    Result<(), HoneycombExporterError>,
)
    decreases spans_left(step), events_left(step),
    when is_valid(step)
{
    match step {
        StepView::AcquireClient { batch, next } => run(
            after_client(batch, next, (answers.open)(next)),
            sent,
            answers,
        ),
        StepView::Send { event, batch, current, item } => run(
            after_send(batch, current, item, (answers.reply)(sent.len() as int)),
            sent.push(event),
            answers,
        ),
        StepView::Finish(result) => (sent, result),
    }
}

/// The events sent, and the result, of the export of a batch.
pub open spec fn run_export(batch: Seq<SpanData>, answers: Answers) -> (
    Seq<EventView>,
    Result<(), HoneycombExporterError>,
) {
    run(begin_span(batch, 0), Seq::empty(), answers)
}

/// Whether the answers to the events sent after `from` and up to `to` others are all good.
pub open spec fn replies_good(answers: Answers, from: int, to: int) -> bool {
    forall|n: int| from <= n < to ==> #[trigger] (answers.reply)(n) is Ok
}

/// Whether the client is there for the spans from index `from` up to index `to`.
pub open spec fn client_open(answers: Answers, from: int, to: int) -> bool {
    forall|i: int| from <= i < to ==> #[trigger] (answers.open)(i)
}

/// With good answers, the rest of a span's events is sent, and the next span is begun.
proof fn lemma_rest_of_span(
    batch: Seq<SpanData>,
    current: int,
    item: int,
    sent: Seq<EventView>,
    answers: Answers,
)
    requires
        0 <= current < batch.len(),
        0 <= item < span_events(batch[current]).len(),
        replies_good(
            answers,
            sent.len() as int,
            sent.len() + span_events(batch[current]).len() - item,
        ),
    ensures
        run(send_item(batch, current, item), sent, answers) == run(
            begin_span(batch, current + 1),
            sent + span_events(batch[current]).skip(item),
            answers,
        ),
    decreases span_events(batch[current]).len() - item,
{
    let events = span_events(batch[current]);
    let next = sent.push(events[item]);
    assert((answers.reply)(sent.len() as int) is Ok);
    if item + 1 < events.len() {
        lemma_rest_of_span(batch, current, item + 1, next, answers);
        assert(next + events.skip(item + 1) =~= sent + events.skip(item));
    } else {
        assert(next =~= sent + events.skip(item));
    }
}

/// At the first bad answer, the export ends with it.
proof fn lemma_failure_in_span(
    batch: Seq<SpanData>,
    current: int,
    item: int,
    sent: Seq<EventView>,
    answers: Answers,
    bad: int,
)
    requires
        0 <= current < batch.len(),
        0 <= item < span_events(batch[current]).len(),
        sent.len() <= bad < sent.len() + span_events(batch[current]).len() - item,
        replies_good(answers, sent.len() as int, bad),
        (answers.reply)(bad) is Err,
    ensures
        run(send_item(batch, current, item), sent, answers) == (
            sent + span_events(batch[current]).subrange(item, item + bad - sent.len() + 1),
            Err::<(), HoneycombExporterError>(
                HoneycombExporterError::Honeycomb((answers.reply)(bad)->Err_0),
            ),
        ),
    decreases span_events(batch[current]).len() - item,
{
    let events = span_events(batch[current]);
    let next = sent.push(events[item]);
    if bad == sent.len() {
        reveal_with_fuel(run, 2);
        assert(next =~= sent + events.subrange(item, item + 1));
    } else {
        assert((answers.reply)(sent.len() as int) is Ok);
        lemma_failure_in_span(batch, current, item + 1, next, answers, bad);
        assert(next + events.subrange(item + 1, item + 1 + bad - next.len() + 1) =~= sent
            + events.subrange(item, item + bad - sent.len() + 1));
    }
}

/// With good answers, the spans from `from` up to `to` are sent, and span `to` is begun.
proof fn lemma_spans(
    batch: Seq<SpanData>,
    from: int,
    to: int,
    sent: Seq<EventView>,
    answers: Answers,
)
    requires
        0 <= from <= to <= batch.len(),
        client_open(answers, from, to),
        replies_good(
            answers,
            sent.len() as int,
            (sent.len() + events_between(batch, from, to).len()) as int,
        ),
    ensures
        run(begin_span(batch, from), sent, answers) == run(
            begin_span(batch, to),
            sent + events_between(batch, from, to),
            answers,
        ),
    decreases to - from,
{
    if from < to {
        let events = span_events(batch[from]);
        let next = sent + events;
        assert((answers.open)(from));
        assert(events.skip(0) =~= events);
        lemma_rest_of_span(batch, from, 0, sent, answers);
        lemma_spans(batch, from + 1, to, next, answers);
        assert(next + events_between(batch, from + 1, to) =~= sent + events_between(
            batch,
            from,
            to,
        ));
    } else {
        assert(sent + events_between(batch, from, to) =~= sent);
    }
}

/// At the first bad answer to an event of the spans from `from` up to `to`, the export ends.
proof fn lemma_failure(
    batch: Seq<SpanData>,
    from: int,
    to: int,
    sent: Seq<EventView>,
    answers: Answers,
    bad: int,
)
    requires
        0 <= from <= to <= batch.len(),
        client_open(answers, from, to),
        sent.len() <= bad < sent.len() + events_between(batch, from, to).len(),
        replies_good(answers, sent.len() as int, bad),
        (answers.reply)(bad) is Err,
    ensures
        run(begin_span(batch, from), sent, answers) == (
            sent + events_between(batch, from, to).take(bad - sent.len() + 1),
            Err::<(), HoneycombExporterError>(
                HoneycombExporterError::Honeycomb((answers.reply)(bad)->Err_0),
            ),
        ),
    decreases to - from,
{
    assert(from < to);
    let events = span_events(batch[from]);
    let next = sent + events;
    assert((answers.open)(from));
    if bad < next.len() {
        lemma_failure_in_span(batch, from, 0, sent, answers, bad);
        assert(events.subrange(0, bad - sent.len() + 1) =~= events_between(batch, from, to).take(
            bad - sent.len() + 1,
        ));
    } else {
        assert(events.skip(0) =~= events);
        lemma_rest_of_span(batch, from, 0, sent, answers);
        lemma_failure(batch, from + 1, to, next, answers, bad);
        assert(next + events_between(batch, from + 1, to).take(bad - next.len() + 1) =~= sent
            + events_between(batch, from, to).take(bad - sent.len() + 1));
    }
}

/// If the client is there for every span and takes every event, all events of
/// the batch are sent, each once and in order, and the export succeeds.
pub proof fn export_sends_all(batch: Seq<SpanData>, answers: Answers)
    requires
        client_open(answers, 0, batch.len() as int),
        replies_good(answers, 0, batch_events(batch).len() as int),
    ensures
        run_export(batch, answers) == (
            batch_events(batch),
            Ok::<(), HoneycombExporterError>(()),
        ),
{
    lemma_spans(batch, 0, batch.len() as int, Seq::empty(), answers);
    assert(Seq::<EventView>::empty() + batch_events(batch) =~= batch_events(batch));
}

/// If the client is gone when span `gone` is to be begun, the events of the
/// spans before it are sent, and the export fails because of the shutdown. In
/// particular an export that begins after the shutdown sends nothing.
pub proof fn export_stops_at_shutdown(batch: Seq<SpanData>, answers: Answers, gone: int)
    requires
        0 <= gone < batch.len(),
        client_open(answers, 0, gone),
        !(answers.open)(gone),
        replies_good(answers, 0, events_between(batch, 0, gone).len() as int),
    ensures
        run_export(batch, answers) == (
            events_between(batch, 0, gone),
            Err::<(), HoneycombExporterError>(HoneycombExporterError::Shutdown),
        ),
{
    reveal_with_fuel(run, 2);
    lemma_spans(batch, 0, gone, Seq::empty(), answers);
    assert(Seq::<EventView>::empty() + events_between(batch, 0, gone) =~= events_between(
        batch,
        0,
        gone,
    ));
}

/// If the client fails on the event that follows `bad` others, that event is
/// the last that is sent, and the export fails with the client's error.
pub proof fn export_stops_at_failure(batch: Seq<SpanData>, answers: Answers, spans: int, bad: int)
    requires
        0 <= spans <= batch.len(),
        client_open(answers, 0, spans),
        0 <= bad < events_between(batch, 0, spans).len(),
        replies_good(answers, 0, bad),
        (answers.reply)(bad) is Err,
    ensures
        run_export(batch, answers) == (
            events_between(batch, 0, spans).take(bad + 1),
            Err::<(), HoneycombExporterError>(
                HoneycombExporterError::Honeycomb((answers.reply)(bad)->Err_0),
            ),
        ),
{
    lemma_failure(batch, 0, spans, Seq::empty(), answers, bad);
    assert(Seq::<EventView>::empty() + events_between(batch, 0, spans).take(bad + 1)
        =~= events_between(batch, 0, spans).take(bad + 1));
}

/// After the shutdown no client is left to be closed, an export of any span
/// sends nothing, and both it and a flush fail because of the shutdown.
pub proof fn shutdown_is_final<C>(
    slot: ClientSlot<C>,
    batch: Seq<SpanData>,
    answers: Answers,
    flushed: ClientSlot<C>,
    reply: Option<Result<(), libhoney::Error>>,
)
    requires
        batch.len() > 0,
        (answers.open)(0) <==> after_shutdown(slot).client is Some,
        flushes(after_shutdown(slot), flushed, reply),
    ensures
        after_shutdown(slot).client is None,
        after_shutdown(after_shutdown(slot)) == after_shutdown(slot),
        run_export(batch, answers) == (
            Seq::<EventView>::empty(),
            Err::<(), HoneycombExporterError>(HoneycombExporterError::Shutdown),
        ),
        flushed == after_shutdown(slot),
        flush_result(reply) == Err::<(), HoneycombExporterError>(HoneycombExporterError::Shutdown),
{
    export_stops_at_shutdown(batch, answers, 0);
}

/// A flush does not shut anything down, whether or not the client failed: the
/// client is there afterwards exactly if it was before, and only a client that
/// was gone makes the flush fail because of a shutdown. So neither a later flush
/// nor a later export, for which the slot stays as the flush left it, fails
/// because of a shutdown.
pub proof fn a_flush_keeps_the_client<C>(
    before: ClientSlot<C>,
    after: ClientSlot<C>,
    reply: Option<Result<(), libhoney::Error>>,
    batch: Seq<SpanData>,
    answers: Answers,
    later: ClientSlot<C>,
    later_reply: Option<Result<(), libhoney::Error>>,
)
    requires
        flushes(before, after, reply),
        forall|i: int| #[trigger] (answers.open)(i) <==> after.client is Some,
        flushes(after, later, later_reply),
    ensures
        after.client is Some <==> before.client is Some,
        flush_result(reply) == Err::<(), HoneycombExporterError>(HoneycombExporterError::Shutdown)
            <==> before.client is None,
        before.client is Some ==> run_export(batch, answers).1 != Err::<
            (),
            HoneycombExporterError,
        >(HoneycombExporterError::Shutdown),
        before.client is Some ==> flush_result(later_reply) != Err::<
            (),
            HoneycombExporterError,
        >(HoneycombExporterError::Shutdown),
{
    if before.client is Some {
        let spans = batch.len() as int;
        let events = batch_events(batch);
        let bad = first_bad(answers, events.len() as int);
        if bad < events.len() {
            export_stops_at_failure(batch, answers, spans, bad);
        } else {
            export_sends_all(batch, answers);
        }
    }
}

/// The events of a batch of one span are those of the span.
pub proof fn a_span_alone_is_sent_whole(span: SpanData)
    ensures
        batch_events(seq![span]) == span_events(span),
{
    let batch = seq![span];
    assert(events_between(batch, 1, 1) =~= Seq::empty());
    assert(batch_events(batch) =~= span_events(batch[0]) + events_between(batch, 1, 1));
    assert(batch_events(batch) =~= span_events(span));
}

/// The export of an empty batch succeeds, whether or not the client is there.
pub proof fn export_of_nothing_succeeds(batch: Seq<SpanData>, answers: Answers)
    requires
        batch.len() == 0,
    ensures
        run_export(batch, answers) == (
            Seq::<EventView>::empty(),
            Ok::<(), HoneycombExporterError>(()),
        ),
{
}

/// The events of consecutive spans come one after the other.
proof fn lemma_split(batch: Seq<SpanData>, from: int, mid: int, to: int)
    requires
        from <= mid <= to,
    ensures
        events_between(batch, from, to) == events_between(batch, from, mid) + events_between(
            batch,
            mid,
            to,
        ),
    decreases mid - from,
{
    if from < mid {
        lemma_split(batch, from + 1, mid, to);
        assert(events_between(batch, from, to) =~= events_between(batch, from, mid)
            + events_between(batch, mid, to));
    } else {
        assert(events_between(batch, from, to) =~= events_between(batch, from, mid)
            + events_between(batch, mid, to));
    }
}

/// The first span for which the client is gone, or the number of spans.
proof fn first_gone(answers: Answers, spans: int) -> (r: int)
    requires
        0 <= spans,
    ensures
        0 <= r <= spans,
        client_open(answers, 0, r),
        r < spans ==> !(answers.open)(r),
    decreases spans,
{
    if spans == 0 {
        0
    } else {
        let r = first_gone(answers, spans - 1);
        if r == spans - 1 && (answers.open)(r) {
            spans
        } else {
            r
        }
    }
}

/// The first event on which the client fails, or the number of events.
proof fn first_bad(answers: Answers, events: int) -> (r: int)
    requires
        0 <= events,
    ensures
        0 <= r <= events,
        replies_good(answers, 0, r),
        r < events ==> (answers.reply)(r) is Err,
    decreases events,
{
    if events == 0 {
        0
    } else {
        let r = first_bad(answers, events - 1);
        if r == events - 1 && (answers.reply)(r) is Ok {
            events
        } else {
            r
        }
    }
}

/// Whatever the answers are, the events that are sent are the first so many of
/// the batch, in order. The export succeeds exactly if the client is there for
/// every span and takes every event, and then all events are sent.
pub proof fn export_sends_a_prefix(batch: Seq<SpanData>, answers: Answers)
    ensures
        run_export(batch, answers).0.is_prefix_of(batch_events(batch)),
        run_export(batch, answers).1 is Ok <==> client_open(answers, 0, batch.len() as int)
            && replies_good(answers, 0, batch_events(batch).len() as int),
        run_export(batch, answers).1 is Ok ==> run_export(batch, answers).0 == batch_events(batch),
{
    let spans = batch.len() as int;
    let gone = first_gone(answers, spans);
    let reached = events_between(batch, 0, gone);
    let bad = first_bad(answers, reached.len() as int);
    lemma_split(batch, 0, gone, spans);
    if bad < reached.len() {
        export_stops_at_failure(batch, answers, gone, bad);
        assert(!replies_good(answers, 0, batch_events(batch).len() as int));
    } else if gone < spans {
        export_stops_at_shutdown(batch, answers, gone);
        assert(!client_open(answers, 0, spans));
    } else {
        export_sends_all(batch, answers);
    }
}

/// What is sent for a span is one event for itself, one for each thing that
/// happened in it and one for each of its links, each its own and in order.
pub proof fn each_part_of_a_span_has_its_own_event(span: SpanData)
    ensures
        span_events(span).len() == 1 + span.events@.len() + span.links@.len(),
        span_events(span)[0] == span_event(span),
        forall|i: int|
            #![trigger span.events@[i]]
            0 <= i < span.events@.len() ==> span_events(span)[1 + i] == annotation_event(
                span,
                span.events@[i],
            ),
        forall|i: int|
            #![trigger span.links@[i]]
            0 <= i < span.links@.len() ==> span_events(span)[1 + span.events@.len() + i]
                == link_event(span, span.links@[i]),
{
}

/// The event of each link tells the identifiers of what that very link leads to,
/// unless an attribute takes the name.
pub proof fn each_link_tells_where_it_leads(span: SpanData, i: int)
    requires
        0 <= i < span.links@.len(),
    ensures
        ({
            let link = span.links@[i];
            let fields = span_events(span)[1 + span.events@.len() + i].fields;
            let attributes = attribute_views(link.attributes@);
            &&& !names(attributes, "trace.link.trace_id"@) ==> fields.contains_key(
                "trace.link.trace_id"@,
            ) && fields["trace.link.trace_id"@] == FieldView::Scalar(
                ScalarView::Text(hex_text(link.trace_id.0 as int, 32)),
            )
            &&& !names(attributes, "trace.link.span_id"@) ==> fields.contains_key(
                "trace.link.span_id"@,
            ) && fields["trace.link.span_id"@] == FieldView::Scalar(
                ScalarView::Text(hex_text(link.span_id.0 as int, 16)),
            )
        }),
{
    links_are_children_of_their_span(span, span.links@[i]);
}

/// The event of each thing that happened in a span tells the name of that very
/// thing and is dated at its time.
pub proof fn each_annotation_tells_what_happened(span: SpanData, i: int)
    requires
        0 <= i < span.events@.len(),
    ensures
        ({
            let happened = span.events@[i];
            let event = span_events(span)[1 + i];
            &&& event.fields.contains_key("name"@)
            &&& event.fields["name"@] == FieldView::Scalar(ScalarView::Text(happened.name@))
            &&& event.timestamp_millis is Some
            &&& is_dated(event.timestamp_millis->0, happened.timestamp)
        }),
{
    annotation_fields_are_not_overridden(span, span.events@[i]);
    an_annotation_is_dated_at_its_own_time(span, span.events@[i]);
}

/// Nothing is sent for no spans, and what is sent for two batches in a row is
/// what is sent for each, one after the other. The events of some consecutive
/// spans of a batch are those of these spans alone.
pub proof fn batches_are_sent_one_after_the_other(
    batch: Seq<SpanData>,
    more: Seq<SpanData>,
    from: int,
    to: int,
)
    requires
        0 <= from <= to <= batch.len(),
    ensures
        batch_events(Seq::empty()) == Seq::<EventView>::empty(),
        batch_events(batch + more) == batch_events(batch) + batch_events(more),
        events_between(batch, from, to) == batch_events(batch.subrange(from, to)),
{
    let both = batch + more;
    lemma_split(both, 0, batch.len() as int, both.len() as int);
    lemma_shift(both, batch, 0, 0, batch.len() as int);
    lemma_shift(both, more, batch.len() as int, 0, more.len() as int);
    lemma_shift(batch, batch.subrange(from, to), from, 0, to - from);
}

/// The same spans elsewhere in a batch have the same events.
proof fn lemma_shift(whole: Seq<SpanData>, part: Seq<SpanData>, offset: int, from: int, to: int)
    requires
        forall|i: int| from <= i < to ==> whole[offset + i] == #[trigger] part[i],
    ensures
        events_between(whole, offset + from, offset + to) == events_between(part, from, to),
    decreases to - from,
{
    if from < to {
        lemma_shift(whole, part, offset, from + 1, to);
        assert(whole[offset + from] == part[from]);
    }
}

/// The time that an event of a span bears is the span's start for the first, and
/// for those that follow the time of what happened; links bear none.
pub proof fn dates_are_asked_of_the_times_that_are_sent(span: SpanData, i: int)
    ensures
        item_has_date(span, 0) <==> has_date(span.start_time),
        0 <= i < span.events@.len() ==> (item_has_date(span, 1 + i) <==> has_date(
            span.events@[i].timestamp,
        )),
        i >= span.events@.len() ==> item_has_date(span, 1 + i),
{
}

/// A step of an export stands for what it asks for: the event that is to be
/// sent, or the result.
pub proof fn steps_stand_for_what_they_ask(
    event: Event,
    sending: AwaitingReply,
    waiting: AwaitingClient,
    result: Result<(), HoneycombExporterError>,
)
    ensures
        ExportStep::Finish(result)@ == StepView::Finish(result),
        ExportStep::Send(event, sending)@ matches StepView::Send { event: sent, batch, .. } && sent
            == event@ && batch == sending.batch(),
        ExportStep::AcquireClient(waiting)@ matches StepView::AcquireClient { batch, next }
            && batch == waiting.batch() && next == waiting.next(),
{
}

} // verus!
