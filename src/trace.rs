//! The diagnostic side channel: what each stage of the pipeline reports, in
//! order, for a sink to emit. Payload events (a serialized request, a raw
//! response body) are costly to render and are kept only while tracing is on.

use vstd::prelude::*;

verus! {

/// One diagnostic event.
#[derive(Debug, PartialEq, Eq)]
pub enum TraceEvent {
    /// The serialized request is about to be shown.
    RequestBodyFollows,
    /// The serialized request itself: a payload event.
    RequestBody,
    /// The request was sent to this URL.
    RequestStarted(String),
    /// No response came: the transport's description.
    TransportFailed(String),
    /// A response came, but its body could not be read.
    BodyReadFailed(String),
    /// The raw response body: a payload event.
    ResponseBody(Vec<u8>),
    /// The response body has this many bytes.
    ResponseSize(usize),
    /// The service answered with a status other than 200.
    RequestFailed(u16),
    /// A response body did not have the expected shape, with a description.
    Malformed(String),
}

pub ghost enum TraceEventView {
    RequestBodyFollows,
    RequestBody,
    RequestStarted(Seq<char>),
    TransportFailed(Seq<char>),
    BodyReadFailed(Seq<char>),
    ResponseBody(Seq<u8>),
    ResponseSize(usize),
    RequestFailed(u16),
    Malformed,
}

impl TraceEventView {
    pub open spec fn is_payload(self) -> bool {
        self is RequestBody || self is ResponseBody
    }
}

impl View for TraceEvent {
    type V = TraceEventView;

    open spec fn view(&self) -> TraceEventView {
        match self {
            TraceEvent::RequestBodyFollows => TraceEventView::RequestBodyFollows,
            TraceEvent::RequestBody => TraceEventView::RequestBody,
            TraceEvent::RequestStarted(u) => TraceEventView::RequestStarted(u@),
            TraceEvent::TransportFailed(d) => TraceEventView::TransportFailed(d@),
            TraceEvent::BodyReadFailed(d) => TraceEventView::BodyReadFailed(d@),
            TraceEvent::ResponseBody(b) => TraceEventView::ResponseBody(b@),
            TraceEvent::ResponseSize(n) => TraceEventView::ResponseSize(*n),
            TraceEvent::RequestFailed(s) => TraceEventView::RequestFailed(*s),
            TraceEvent::Malformed(_) => TraceEventView::Malformed,
        }
    }
}

impl TraceEvent {
    /// Whether this is a payload event, the costly kind.
    pub fn is_structured(&self) -> (r: bool)
        ensures
            r == self@.is_payload(),
    {
        match self {
            TraceEvent::RequestBody => true,
            TraceEvent::ResponseBody(_) => true,
            _ => false,
        }
    }
}

pub ghost struct TraceView {
    pub tracing: bool,
    pub events: Seq<TraceEventView>,
}

/// The events reported so far, and whether tracing is on. While tracing is
/// off the trace never holds a payload event.
pub struct Trace {
    tracing: bool,
    events: Vec<TraceEvent>,
}

impl View for Trace {
    type V = TraceView;

    closed spec fn view(&self) -> TraceView {
        TraceView { tracing: self.tracing, events: self.events@.map_values(|e: TraceEvent| e@) }
    }
}

impl Trace {
    #[verifier::type_invariant]
    spec fn quiet_when_off(self) -> bool {
        !self.tracing ==> forall|i: int|
            0 <= i < self.events@.len() ==> !(#[trigger] self.events@[i])@.is_payload()
    }

    /// An empty trace.
    pub fn new(tracing: bool) -> (r: Trace)
        ensures
            r@.tracing == tracing,
            r@.events == Seq::<TraceEventView>::empty(),
    {
        let r = Trace { tracing, events: Vec::new() };
        assert(r@.events =~= Seq::<TraceEventView>::empty());
        r
    }

    /// Whether tracing is on.
    pub fn tracing(&self) -> (r: bool)
        ensures
            r == self@.tracing,
    {
        self.tracing
    }

    /// The events so far, oldest first.
    pub fn events(&self) -> (r: &Vec<TraceEvent>)
        ensures
            r@.map_values(|e: TraceEvent| e@) == self@.events,
            !self@.tracing ==> forall|i: int| 0 <= i < r@.len() ==> !(#[trigger] r@[i])@.is_payload(),
    {
        proof {
            use_type_invariant(self);
        }
        &self.events
    }

    /// Adds an event at the end; a payload event is dropped while tracing is off.
    pub fn record(&mut self, e: TraceEvent)
        ensures
            final(self)@.tracing == old(self)@.tracing,
            final(self)@.events == if e@.is_payload() && !old(self)@.tracing {
                old(self)@.events
            } else {
                old(self)@.events.push(e@)
            },
    {
        proof {
            use_type_invariant(&*self);
        }
        if self.tracing || !e.is_structured() {
            let mut events: Vec<TraceEvent> = Vec::new();
            std::mem::swap(&mut events, &mut self.events);
            let ghost before = events@;
            events.push(e);
            assert(events@.map_values(|x: TraceEvent| x@) =~= before.map_values(
                |x: TraceEvent| x@,
            ).push(e@));
            self.events = events;
        }
    }
}

} // verus!
