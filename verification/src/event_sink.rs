//! Receivers of the events that the tunnel and the binary resolver report.
use vstd::prelude::*;
use crate::models::{
    opt_view, FrpcDownloadPayload, TunnelLogPayload, TunnelStatusPayload,
};

verus! {

/// A receiver of status changes, log lines and download steps.
pub trait AppEventSink {
    /// Whether `after` is what the receiver `before` becomes on receiving
    /// `event`.
    spec fn receives(before: &Self, after: &Self, event: RecordedEvent) -> bool;

    /// Receives a change of the tunnel's status.
    fn emit_status(&mut self, payload: TunnelStatusPayload)
        ensures
            Self::receives(&*old(self), &*final(self), RecordedEvent::Status(payload)),
    ;

    /// Receives a line of the tunnel's log.
    fn emit_log(&mut self, payload: TunnelLogPayload)
        ensures
            Self::receives(&*old(self), &*final(self), RecordedEvent::Log(payload)),
    ;

    /// Receives a step of making `frpc` available.
    fn emit_download(&mut self, payload: FrpcDownloadPayload)
        ensures
            Self::receives(&*old(self), &*final(self), RecordedEvent::Download(payload)),
    ;
}

/// An event as it was reported.
#[derive(Debug, PartialEq, Eq)]
pub enum RecordedEvent {
    Status(TunnelStatusPayload),
    Log(TunnelLogPayload),
    Download(FrpcDownloadPayload),
}

/// An event as a mathematical value.
pub enum EventView {
    Status { status: Seq<char>, detail: Option<Seq<char>> },
    Log { level: Seq<char>, message: Seq<char> },
    Download { stage: Seq<char>, message: Seq<char>, path: Option<Seq<char>> },
}

impl View for RecordedEvent {
    type V = EventView;

    open spec fn view(&self) -> EventView {
        match self {
            RecordedEvent::Status(p) => EventView::Status {
                status: p.status@,
                detail: opt_view(p.detail),
            },
            RecordedEvent::Log(p) => EventView::Log { level: p.level@, message: p.message@ },
            RecordedEvent::Download(p) => EventView::Download {
                stage: p.stage@,
                message: p.message@,
                path: opt_view(p.path),
            },
        }
    }
}

/// The views of a sequence of events.
pub open spec fn events_view(events: Seq<RecordedEvent>) -> Seq<EventView> {
    events.map_values(|e: RecordedEvent| e@)
}

impl Clone for RecordedEvent {
    fn clone(&self) -> (r: Self)
        ensures
            r == *self,
    {
        match self {
            RecordedEvent::Status(p) => RecordedEvent::Status(p.clone()),
            RecordedEvent::Log(p) => RecordedEvent::Log(p.clone()),
            RecordedEvent::Download(p) => RecordedEvent::Download(p.clone()),
        }
    }
}

/// Hands one event to the receiver method that fits it.
pub fn deliver<S: AppEventSink + ?Sized>(sink: &mut S, event: RecordedEvent)
    ensures
        S::receives(&*old(sink), &*final(sink), event),
{
    match event {
        RecordedEvent::Status(p) => sink.emit_status(p),
        RecordedEvent::Log(p) => sink.emit_log(p),
        RecordedEvent::Download(p) => sink.emit_download(p),
    }
}

/// Whether `after` is what the receiver `before` becomes on receiving
/// `events`, one after another, in order.
pub open spec fn receives_in_order<S: AppEventSink + ?Sized>(
    before: &S,
    after: &S,
    events: Seq<RecordedEvent>,
) -> bool
    decreases events.len(),
{
    if events.len() == 0 {
        after == before
    } else {
        exists|mid: &S|
            receives_in_order(before, mid, events.drop_last()) && #[trigger] S::receives(
                mid,
                after,
                events.last(),
            )
    }
}

/// Hands events to a receiver in order.
pub fn deliver_all<S: AppEventSink + ?Sized>(sink: &mut S, events: Vec<RecordedEvent>)
    ensures
        receives_in_order(&*old(sink), &*final(sink), events@),
{
    let ghost all = events@;
    let mut events = events;
    let total: usize = events.len();
    let mut k: usize = 0;
    while events.len() > 0
        invariant
            k + events@.len() == all.len(),
            all.len() == total,
            events@ == all.subrange(k as int, all.len() as int),
            receives_in_order(&*old(sink), &*sink, all.subrange(0, k as int)),
        decreases events@.len(),
    {
        let ghost mid: &S = &*sink;
        let event = events.remove(0);
        assert(event == all[k as int]);
        deliver(sink, event);
        proof {
            let done = all.subrange(0, k + 1);
            assert(done.drop_last() =~= all.subrange(0, k as int));
            assert(S::receives(mid, &*sink, done.last()));
        }
        k = k + 1;
        assert(events@ =~= all.subrange(k as int, all.len() as int));
    }
    assert(all.subrange(0, k as int) =~= all);
}

/// A receiver that discards every event.
pub struct NoopEventSink;

impl NoopEventSink {
    /// A receiver that discards every event, to be shared.
    pub fn shared() -> (r: std::sync::Arc<NoopEventSink>) {
        std::sync::Arc::new(NoopEventSink)
    }
}

impl AppEventSink for NoopEventSink {
    /// Every event leaves the receiver as it was.
    open spec fn receives(before: &Self, after: &Self, event: RecordedEvent) -> bool {
        *after == *before
    }

    fn emit_status(&mut self, _payload: TunnelStatusPayload) {
    }

    fn emit_log(&mut self, _payload: TunnelLogPayload) {
    }

    fn emit_download(&mut self, _payload: FrpcDownloadPayload) {
    }
}

/// A receiver that keeps every event, in the order received.
pub struct MemoryEventSink {
    events: Vec<RecordedEvent>,
}

impl View for MemoryEventSink {
    type V = Seq<RecordedEvent>;

    closed spec fn view(&self) -> Seq<RecordedEvent> {
        self.events@
    }
}

impl MemoryEventSink {
    /// A receiver that holds no event yet.
    pub fn new() -> (r: Self)
        ensures
            r@ == Seq::<RecordedEvent>::empty(),
    {
        MemoryEventSink { events: Vec::new() }
    }

    /// A receiver that holds no event yet, to be shared.
    pub fn shared() -> (r: std::sync::Arc<Self>)
        ensures
            r@ == Seq::<RecordedEvent>::empty(),
    {
        std::sync::Arc::new(Self::new())
    }

    /// A copy of the events received so far, in order.
    pub fn snapshot(&self) -> (r: Vec<RecordedEvent>)
        ensures
            r@ == self@,
    {
        let mut r: Vec<RecordedEvent> = Vec::new();
        let mut i: usize = 0;
        while i < self.events.len()
            invariant
                i <= self.events@.len(),
                r@ == self.events@.subrange(0, i as int),
            decreases self.events@.len() - i,
        {
            r.push(self.events[i].clone());
            assert(self.events@.subrange(0, i + 1) =~= self.events@.subrange(0, i as int).push(
                self.events@[i as int],
            ));
            i = i + 1;
        }
        assert(self.events@.subrange(0, self.events@.len() as int) =~= self.events@);
        r
    }
}

/// A receiver that keeps events, handed events in order, holds afterwards
/// what it held before followed by those events, in the order handed.
pub proof fn memory_sink_keeps_order(
    before: &MemoryEventSink,
    after: &MemoryEventSink,
    events: Seq<RecordedEvent>,
)
    requires
        receives_in_order(before, after, events),
    ensures
        after@ == before@ + events,
    decreases events.len(),
{
    if events.len() == 0 {
        assert(before@ + events =~= before@);
    } else {
        let mid = choose|mid: &MemoryEventSink|
            receives_in_order(before, mid, events.drop_last()) && #[trigger] MemoryEventSink::receives(
                mid,
                after,
                events.last(),
            );
        memory_sink_keeps_order(before, mid, events.drop_last());
        assert(before@ + events =~= (before@ + events.drop_last()).push(events.last()));
    }
}

impl AppEventSink for MemoryEventSink {
    /// The event is kept after those received before it.
    open spec fn receives(before: &Self, after: &Self, event: RecordedEvent) -> bool {
        after@ == before@.push(event)
    }

    fn emit_status(&mut self, payload: TunnelStatusPayload)
        ensures
            final(self)@ == old(self)@.push(RecordedEvent::Status(payload)),
    {
        self.events.push(RecordedEvent::Status(payload));
    }

    fn emit_log(&mut self, payload: TunnelLogPayload)
        ensures
            final(self)@ == old(self)@.push(RecordedEvent::Log(payload)),
    {
        self.events.push(RecordedEvent::Log(payload));
    }

    fn emit_download(&mut self, payload: FrpcDownloadPayload)
        ensures
            final(self)@ == old(self)@.push(RecordedEvent::Download(payload)),
    {
        self.events.push(RecordedEvent::Download(payload));
    }
}

} // verus!
