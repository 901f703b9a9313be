use vstd::prelude::*;
use crate::observer::{Event, EventView};
use crate::organism::ecosystem::{Food, FoodView, StreamId};

verus! {

/// What the organism's state keeper is asked to do.
#[derive(Debug)]
pub enum StateCommand {
    /// Produce a portion of food for a peer.
    Produce,
    /// Take in a portion of food that a peer sent.
    Consume { food: Food },
}

/// The number with which an organism answers a peer that opens a food flow.
pub const FOOD_FLOW_STREAM_ID: i32 = 3;

/// The type of the event that reports food handed to a peer.
pub const FOOD_SENT_EVENT: i32 = 1;

/// The id after which the events reported for one peer are numbered.
pub const PEER_EVENT_ID_START: i32 = 0;

/// The id after which the events forwarded to the observer are renumbered.
pub const OBSERVER_EVENT_ID_START: i32 = 1;

/// The answer to a peer that opens a food flow.
pub fn food_flow_reply() -> (reply: StreamId)
    ensures
        reply.id == FOOD_FLOW_STREAM_ID,
        reply.id == 3,
{
    StreamId { id: FOOD_FLOW_STREAM_ID }
}

/// What the state keeper answers a command with, for an organism that
/// produces `food_kind`: a request to produce is answered with one unit of
/// that kind; food taken in gets no answer.
pub fn handle_command(food_kind: &String, cmd: StateCommand) -> (reply: Option<Food>)
    ensures
        match cmd {
            StateCommand::Produce => reply matches Some(f) && f@ == (FoodView {
                kind: food_kind@,
                amount: 1,
            }),
            StateCommand::Consume { .. } => reply is None,
        },
{
    match cmd {
        StateCommand::Produce => {
            let kind = food_kind.clone();
            let amount: i32 = 1;
            Some(Food { kind, amount })
        },
        StateCommand::Consume { food: _ } => None,
    }
}

/// The event that reports `food` sent by the organism `source`, numbered
/// one past `last_id`; the new last id comes back with it.
pub fn report_food(source: &String, last_id: i32, food: &Food) -> (res: (i32, Event))
    requires
        last_id < i32::MAX,
    ensures
        res.0 == last_id + 1,
        res.1@ == (EventView {
            source: source@,
            id: (last_id + 1) as i32,
            event_type: FOOD_SENT_EVENT,
            food_kind: food.kind@,
            food_amount: food.amount,
        }),
        res.1.event_type == 1,
{
    let id = last_id + 1;
    let event = Event {
        source: source.clone(),
        id,
        event_type: FOOD_SENT_EVENT,
        food_kind: food.kind.clone(),
        food_amount: food.amount,
    };
    (id, event)
}

/// What the state keeper is asked for an item that arrived on a peer's food
/// flow: a portion that arrived is taken in; a broken stream ends the flow
/// (`None`).
pub fn inbound_command(item: Result<Food, ()>) -> (cmd: Option<StateCommand>)
    ensures
        match item {
            Ok(f) => cmd == Some(StateCommand::Consume { food: f }),
            Err(_) => cmd is None,
        },
{
    match item {
        Ok(food) => Some(StateCommand::Consume { food }),
        Err(_) => None,
    }
}

/// One tick of the food flow to a peer, given what the state keeper handed
/// out: a portion is reported (numbered one past `last_id`) and then sent;
/// when nothing was handed out, nothing is reported or sent and the numbering
/// stays where it was.
pub fn report_produced(source: &String, last_id: i32, produced: Option<Food>) -> (res: (
    i32,
    Option<(Event, Food)>,
))
    requires
        produced is Some ==> last_id < i32::MAX,
    ensures
        match produced {
            None => res.0 == last_id && res.1 is None,
            Some(f) => {
                &&& res.0 == last_id + 1
                &&& res.1 matches Some((e, sent))
                &&& sent == f
                &&& e@ == (EventView {
                    source: source@,
                    id: (last_id + 1) as i32,
                    event_type: FOOD_SENT_EVENT,
                    food_kind: f.kind@,
                    food_amount: f.amount,
                })
            },
        },
{
    match produced {
        None => (last_id, None),
        Some(food) => {
            let (id, event) = report_food(source, last_id, &food);
            (id, Some((event, food)))
        },
    }
}

/// `event` renumbered one past `last_id`, as it is forwarded to the
/// observer; the new last id comes back with it.
pub fn restamp_event(last_id: i32, event: Event) -> (res: (i32, Event))
    requires
        last_id < i32::MAX,
    ensures
        res.0 == last_id + 1,
        res.1@ == (EventView { id: (last_id + 1) as i32, ..event@ }),
{
    let id = last_id + 1;
    let mut event = event;
    event.id = id;
    (id, event)
}

} // verus!
