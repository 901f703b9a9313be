use vstd::prelude::*;

verus! {

/// A report sent to the observer: which organism did what with which food.
#[derive(Debug)]
pub struct Event {
    pub source: String,
    pub id: i32,
    pub event_type: i32,
    pub food_kind: String,
    pub food_amount: i32,
}

/// The mathematical value of an `Event`.
pub struct EventView {
    pub source: Seq<char>,
    pub id: i32,
    pub event_type: i32,
    pub food_kind: Seq<char>,
    pub food_amount: i32,
}

impl View for Event {
    type V = EventView;

    open spec fn view(&self) -> EventView {
        EventView {
            source: self.source@,
            id: self.id,
            event_type: self.event_type,
            food_kind: self.food_kind@,
            food_amount: self.food_amount,
        }
    }
}

/// The observer's answer to a stream of events.
#[derive(Debug, PartialEq, Eq, Structural, Clone, Copy)]
pub struct StreamId {
    pub stream_id: i32,
}

/// The number the observer answers every stream of events with.
pub const OBSERVER_STREAM_ID: i32 = 42;

/// The service that collects the organisms' events.
#[derive(Debug)]
pub struct EventObserverService {}

impl EventObserverService {
    /// The answer to a stream of events: always the same stream number,
    /// whatever the stream holds.
    pub fn events_reply(&self) -> (reply: StreamId)
        ensures
            reply.stream_id == OBSERVER_STREAM_ID,
            reply.stream_id == 42,
    {
        StreamId { stream_id: OBSERVER_STREAM_ID }
    }
}

} // verus!
