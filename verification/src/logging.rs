//! Telemetry for message movement.
//!
//! Every send and every successful receive emits one structured event. The
//! sink is an injected collaborator held by each endpoint at construction, so
//! endpoints stay independently testable; failure to record is not an
//! endpoint error, and no acknowledgment flows back.

use vstd::prelude::*;

verus! {

/// One telemetry event: a batch crossed an endpoint.
#[derive(Clone, Copy, Debug, PartialEq, Eq, Structural)]
pub struct MessagesEvent {
    /// True for a send-side event, false for a receive-side event.
    pub is_send: bool,
    /// The identifier of the channel the batch moved on.
    pub channel: usize,
    /// The index of the worker that framed the batch.
    pub source: usize,
    /// The index of the worker the batch is addressed to, or that received it.
    pub target: usize,
    /// The sequence number carried by the frame.
    pub seq_no: usize,
    /// The number of records in the batch.
    pub length: usize,
}

/// A sink for telemetry events.
///
/// `events` is the model of the sink: the sequence of events recorded so far,
/// in order. `log` appends exactly the event it is given.
pub trait Logger: Sized {
    /// The events recorded so far, oldest first.
    spec fn events(&self) -> Seq<MessagesEvent>;

    /// Records one event.
    fn log(&mut self, event: MessagesEvent)
        ensures
            final(self).events() == old(self).events().push(event),
    ;
}

/// A sink that retains nothing at run time: the recorded events exist only as
/// a ghost sequence, so logging costs nothing where telemetry is unwanted.
pub struct NullLogger {
    trace: Ghost<Seq<MessagesEvent>>,
}

impl NullLogger {
    /// A sink with no events recorded yet.
    pub fn new() -> (r: NullLogger)
        ensures
            r.events() == Seq::<MessagesEvent>::empty(),
    {
        NullLogger { trace: Ghost(Seq::empty()) }
    }
}

impl Logger for NullLogger {
    closed spec fn events(&self) -> Seq<MessagesEvent> {
        self.trace@
    }

    fn log(&mut self, event: MessagesEvent) {
        self.trace = Ghost(self.trace@.push(event));
    }
}

/// A sink that keeps every event in memory, so a harness can inspect exactly
/// what an endpoint emitted.
pub struct EventLog {
    recorded: Vec<MessagesEvent>,
}

impl EventLog {
    /// A sink with no events recorded yet.
    pub fn new() -> (r: EventLog)
        ensures
            r.events() == Seq::<MessagesEvent>::empty(),
    {
        EventLog { recorded: Vec::new() }
    }

    /// The events recorded so far, oldest first.
    pub fn recorded(&self) -> (r: &Vec<MessagesEvent>)
        ensures
            r@ == self.events(),
    {
        &self.recorded
    }
}

impl Logger for EventLog {
    closed spec fn events(&self) -> Seq<MessagesEvent> {
        self.recorded@
    }

    fn log(&mut self, event: MessagesEvent) {
        self.recorded.push(event);
    }
}

} // verus!
