//! The course of an export: which event is sent next, and when it ends.
//!
//! An export asks for two things in turn. Before each span it asks whether the
//! client is still there, and then it asks for the span's events to be sent,
//! one at a time. Each answer gives the next step.
use crate::client::ClientSlot;
use crate::error::HoneycombExporterError;
use crate::event::{Event, EventView};
use crate::exporter::{annotation_event, link_event, span_event, HoneycombSpanExporter};
use crate::span::{Link, SpanData, SpanEvent};
use crate::time::has_date;
use vstd::prelude::*;

verus! {

/// The events that are sent for a span: its own, then one for each span event,
/// then one for each link.
pub open spec fn span_events(span: SpanData) -> Seq<EventView> {
    seq![span_event(span)] + span.events@.map_values(|e: SpanEvent| annotation_event(span, e))
        + span.links@.map_values(|l: Link| link_event(span, l))
}

/// The events of the spans of a batch from index `from` up to index `to`.
pub open spec fn events_between(batch: Seq<SpanData>, from: int, to: int) -> Seq<EventView>
    decreases to - from,
{
    if from >= to {
        Seq::empty()
    } else {
        span_events(batch[from]) + events_between(batch, from + 1, to)
    }
}

/// The events that are sent for a batch, span by span.
pub open spec fn batch_events(batch: Seq<SpanData>) -> Seq<EventView> {
    events_between(batch, 0, batch.len() as int)
}

/// Whether the time that event `item` of a span bears has a calendar date.
pub open spec fn item_has_date(span: SpanData, item: int) -> bool {
    if item == 0 {
        has_date(span.start_time)
    } else if 1 <= item <= span.events@.len() {
        has_date(span.events@[item - 1].timestamp)
    } else {
        true
    }
}

/// What an export asks for next.
pub enum StepView {
    /// To be told whether the client is there, before span `next` is begun.
    AcquireClient { batch: Seq<SpanData>, next: int },
    /// To have an event sent, which is number `item` of span `current`.
    Send { event: EventView, batch: Seq<SpanData>, current: int, item: int },
    /// Nothing more.
    Finish(Result<(), HoneycombExporterError>),
}

/// The step at which span `next` is to be begun.
pub open spec fn begin_span(batch: Seq<SpanData>, next: int) -> StepView {
    if next < batch.len() {
        StepView::AcquireClient { batch, next }
    } else {
        StepView::Finish(Ok(()))
    }
}

/// The step at which event `item` of span `current` is to be sent.
pub open spec fn send_item(batch: Seq<SpanData>, current: int, item: int) -> StepView {
    StepView::Send { event: span_events(batch[current])[item], batch, current, item }
}

/// The step after the answer whether the client is there.
pub open spec fn after_client(batch: Seq<SpanData>, next: int, open: bool) -> StepView {
    if open {
        send_item(batch, next, 0)
    } else {
        StepView::Finish(Err(HoneycombExporterError::Shutdown))
    }
}

/// The step after the client's answer to a sent event.
pub open spec fn after_send(
    batch: Seq<SpanData>,
    current: int,
    item: int,
    reply: Result<(), libhoney::Error>,
) -> StepView {
    match reply {
        Err(error) => StepView::Finish(Err(HoneycombExporterError::Honeycomb(error))),
        Ok(_) => if item + 1 < span_events(batch[current]).len() {
            send_item(batch, current, item + 1)
        } else {
            begin_span(batch, current + 1)
        },
    }
}

/// Which of a span's events is meant.
enum Item {
    Span,
    Event(usize),
    Link(usize),
}

impl Item {
    spec fn index(self, span: SpanData) -> int {
        match self {
            Item::Span => 0,
            Item::Event(i) => 1 + i,
            Item::Link(i) => 1 + span.events@.len() + i,
        }
    }

    spec fn wf(self, span: SpanData) -> bool {
        match self {
            Item::Span => true,
            Item::Event(i) => i < span.events@.len(),
            Item::Link(i) => i < span.links@.len(),
        }
    }

    fn next(&self, span: &SpanData) -> (r: Option<Item>)
        requires
            self.wf(*span),
        ensures
            r is None <==> self.index(*span) + 1 == span_events(*span).len(),
            r is Some ==> r->0.wf(*span) && r->0.index(*span) == self.index(*span) + 1,
    {
        let events: usize = span.events.len();
        let links: usize = span.links.len();
        match self {
            Item::Span => {
                if events > 0 {
                    Some(Item::Event(0))
                } else if links > 0 {
                    Some(Item::Link(0))
                } else {
                    None
                }
            },
            Item::Event(i) => {
                if *i + 1 < events {
                    Some(Item::Event(*i + 1))
                } else if links > 0 {
                    Some(Item::Link(0))
                } else {
                    None
                }
            },
            Item::Link(i) => {
                if *i + 1 < links {
                    Some(Item::Link(*i + 1))
                } else {
                    None
                }
            },
        }
    }

    fn has_date(&self, span: &SpanData) -> (r: bool)
        requires
            self.wf(*span),
        ensures
            r == item_has_date(*span, self.index(*span)),
    {
        match self {
            Item::Span => span.start_time.has_date(),
            Item::Event(i) => span.events[*i].timestamp.has_date(),
            Item::Link(_) => true,
        }
    }

    fn event(&self, span: &SpanData) -> (r: Event)
        requires
            self.wf(*span),
            item_has_date(*span, self.index(*span)),
        ensures
            r.wf(),
            r@ == span_events(*span)[self.index(*span)],
    {
        match self {
            Item::Span => HoneycombSpanExporter::span_event(span),
            Item::Event(i) => HoneycombSpanExporter::annotation_event(span, &span.events[*i]),
            Item::Link(i) => HoneycombSpanExporter::link_event(span, &span.links[*i]),
        }
    }
}

/// An export that waits to be told whether the client is there.
pub struct AwaitingClient {
    batch: Vec<SpanData>,
    next: usize,
}

/// An export that waits for the client's answer to a sent event.
pub struct AwaitingReply {
    batch: Vec<SpanData>,
    current: usize,
    item: Item,
}

/// What an export asks for next, and what takes the answer.
pub enum ExportStep {
    /// To be told whether the client is there.
    AcquireClient(AwaitingClient),
    /// To have an event sent.
    Send(Event, AwaitingReply),
    /// Nothing more: this is the export's result.
    Finish(Result<(), HoneycombExporterError>),
}

impl AwaitingClient {
    /// The spans of the export.
    pub closed spec fn batch(&self) -> Seq<SpanData> {
        self.batch@
    }

    /// The span that is to be begun.
    pub closed spec fn next(&self) -> int {
        self.next as int
    }

    /// There is such a span.
    pub open spec fn wf(&self) -> bool {
        0 <= self.next() < self.batch().len()
    }

    /// Whether the start of the span that is to be begun has a calendar date.
    pub fn next_has_date(&self) -> (r: bool)
        requires
            self.wf(),
        ensures
            r == item_has_date(self.batch()[self.next()], 0),
    {
        Item::Span.has_date(&self.batch[self.next])
    }

    /// Goes on with the slot that holds the client, or no longer does.
    pub fn client<C>(self, slot: &ClientSlot<C>) -> (r: ExportStep)
        requires
            self.wf(),
            slot.client is Some ==> item_has_date(self.batch()[self.next()], 0),
        ensures
            r.wf(),
            r@ == after_client(self.batch(), self.next(), slot.client is Some),
    {
        if slot.is_open() {
            let event = Item::Span.event(&self.batch[self.next]);
            ExportStep::Send(
                event,
                AwaitingReply { batch: self.batch, current: self.next, item: Item::Span },
            )
        } else {
            ExportStep::Finish(Err(HoneycombExporterError::Shutdown))
        }
    }
}

impl AwaitingReply {
    /// The spans of the export.
    pub closed spec fn batch(&self) -> Seq<SpanData> {
        self.batch@
    }

    /// The span whose event was sent.
    pub closed spec fn current(&self) -> int {
        self.current as int
    }

    /// Which of the span's events it was.
    pub closed spec fn item(&self) -> int {
        self.item.index(self.batch@[self.current as int])
    }

    /// There is such an event.
    pub closed spec fn wf(&self) -> bool {
        &&& self.current < self.batch@.len()
        &&& self.item.wf(self.batch@[self.current as int])
    }

    /// Whether the time of the span's next event, if it has one, has a calendar date.
    pub fn next_has_date(&self) -> (r: bool)
        requires
            self.wf(),
        ensures
            r == item_has_date(self.batch()[self.current()], self.item() + 1),
    {
        let span = &self.batch[self.current];
        match self.item.next(span) {
            Some(item) => item.has_date(span),
            None => true,
        }
    }

    /// Goes on with the client's answer.
    pub fn reply(self, reply: Result<(), libhoney::Error>) -> (r: ExportStep)
        requires
            self.wf(),
            reply is Ok ==> item_has_date(self.batch()[self.current()], self.item() + 1),
        ensures
            r.wf(),
            r@ == after_send(self.batch(), self.current(), self.item(), reply),
    {
        match reply {
            Err(error) => ExportStep::Finish(Err(HoneycombExporterError::Honeycomb(error))),
            Ok(_) => {
                let spans: usize = self.batch.len();
                assert(self.current < spans);
                let next = self.item.next(&self.batch[self.current]);
                match next {
                    Some(item) => {
                        let event = item.event(&self.batch[self.current]);
                        ExportStep::Send(
                            event,
                            AwaitingReply { batch: self.batch, current: self.current, item },
                        )
                    },
                    None => begin(self.batch, self.current + 1),
                }
            },
        }
    }
}

impl View for ExportStep {
    type V = StepView;

    open spec fn view(&self) -> StepView {
        match self {
            ExportStep::AcquireClient(state) => StepView::AcquireClient {
                batch: state.batch(),
                next: state.next(),
            },
            ExportStep::Send(event, state) => StepView::Send {
                event: event@,
                batch: state.batch(),
                current: state.current(),
                item: state.item(),
            },
            ExportStep::Finish(result) => StepView::Finish(*result),
        }
    }
}

impl ExportStep {
    /// The states are valid.
    pub open spec fn wf(&self) -> bool {
        match self {
            ExportStep::AcquireClient(state) => state.wf(),
            ExportStep::Send(event, state) => event.wf() && state.wf(),
            ExportStep::Finish(_) => true,
        }
    }
}

fn begin(batch: Vec<SpanData>, next: usize) -> (r: ExportStep)
    ensures
        r.wf(),
        r@ == begin_span(batch@, next as int),
{
    if next < batch.len() {
        ExportStep::AcquireClient(AwaitingClient { batch, next })
    } else {
        ExportStep::Finish(Ok(()))
    }
}

impl HoneycombSpanExporter {
    /// Starts the export of a batch. That of an empty batch succeeds at once.
    pub fn export(batch: Vec<SpanData>) -> (r: ExportStep)
        ensures
            r.wf(),
            r@ == begin_span(batch@, 0),
    {
        begin(batch, 0)
    }
}

} // verus!
