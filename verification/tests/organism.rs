use ecosystem::observer::{Event, EventObserverService};
use ecosystem::organism::ecosystem::Food;
use ecosystem::organism::service::{
    food_flow_reply, handle_command, inbound_command, report_food, report_produced, restamp_event, StateCommand,
    OBSERVER_EVENT_ID_START, PEER_EVENT_ID_START,
};
use ecosystem::organism::state::{State, OUTGOING_START_AMOUNT};

fn food(kind: &str, amount: i32) -> Food {
    Food { kind: kind.to_string(), amount }
}

#[test]
fn fresh_organism_has_a_full_stock() {
    let s = State::new("grass", "meat");
    assert_eq!(OUTGOING_START_AMOUNT, 1000);
    assert_eq!(
        format!("{:?}", s),
        "State { outgoing_amount: 1000, outgoing: \"grass\", incoming_amount: 0, incoming: \"meat\" }"
    );
}

#[test]
fn stock_lasts_exactly_its_start_amount() {
    let mut s = State::new("grass", "meat");
    for _ in 0..1000 {
        let f = s.produce_food().expect("stock should last");
        assert_eq!((f.kind.as_str(), f.amount), ("grass", 1));
    }
    assert!(s.produce_food().is_none());
    assert!(s.produce_food().is_none());
    assert_eq!(
        format!("{:?}", s),
        "State { outgoing_amount: 0, outgoing: \"grass\", incoming_amount: 0, incoming: \"meat\" }"
    );
}

#[test]
fn eating_counts_accepted_amounts() {
    let mut s = State::new("grass", "meat");
    assert!(s.consume_food(&food("meat", 3)));
    assert!(!s.consume_food(&food("grass", 5)));
    assert!(s.consume_food(&food("meat", 1)));
    assert_eq!(
        format!("{:?}", s),
        "State { outgoing_amount: 1000, outgoing: \"grass\", incoming_amount: 4, incoming: \"meat\" }"
    );
}

#[test]
fn negative_amounts_wrap_as_unsigned() {
    let mut s = State::new("grass", "meat");
    assert!(s.consume_food(&food("meat", -1)));
    assert_eq!(
        format!("{:?}", s),
        format!(
            "State {{ outgoing_amount: 1000, outgoing: \"grass\", incoming_amount: {}, incoming: \"meat\" }}",
            usize::MAX
        )
    );
}

#[test]
fn producing_and_eating_do_not_interfere() {
    let mut a = State::new("grass", "meat");
    let mut b = State::new("grass", "meat");
    a.produce_food();
    a.consume_food(&food("meat", 2));
    b.consume_food(&food("meat", 2));
    b.produce_food();
    assert_eq!(format!("{:?}", a), format!("{:?}", b));
}

#[test]
fn produce_commands_get_one_unit() {
    let kind = "grass".to_string();
    let reply = handle_command(&kind, StateCommand::Produce).expect("a produce command is answered");
    assert_eq!((reply.kind.as_str(), reply.amount), ("grass", 1));
    assert!(handle_command(&kind, StateCommand::Consume { food: food("meat", 1) }).is_none());
}

#[test]
fn reported_food_events_are_numbered_from_one() {
    let source = "rabbit".to_string();
    let f = food("grass", 1);
    let (id, e) = report_food(&source, PEER_EVENT_ID_START, &f);
    assert_eq!(id, 1);
    assert_eq!(
        (e.source.as_str(), e.id, e.event_type, e.food_kind.as_str(), e.food_amount),
        ("rabbit", 1, 1, "grass", 1)
    );
    let (id, e) = report_food(&source, id, &f);
    assert_eq!((id, e.id), (2, 2));
}

#[test]
fn forwarded_events_are_renumbered_from_two() {
    let e = Event {
        source: "rabbit".to_string(),
        id: 17,
        event_type: 1,
        food_kind: "grass".to_string(),
        food_amount: 1,
    };
    let (id, e) = restamp_event(OBSERVER_EVENT_ID_START, e);
    assert_eq!(id, 2);
    assert_eq!(
        (e.source.as_str(), e.id, e.event_type, e.food_kind.as_str(), e.food_amount),
        ("rabbit", 2, 1, "grass", 1)
    );
    let (id, e) = restamp_event(id, e);
    assert_eq!((id, e.id), (3, 3));
}

#[test]
fn stream_ids() {
    assert_eq!(food_flow_reply().id, 3);
    assert_eq!(EventObserverService {}.events_reply().stream_id, 42);
}

#[test]
fn food_flows_between_matching_stock_keepers() {
    let mut grazer = State::new("grass", "meat");
    let mut hunter = State::new("meat", "grass");
    let grass = grazer.produce_food().unwrap();
    assert!(hunter.consume_food(&grass));
    assert!(!grazer.consume_food(&grass));
    assert_eq!(hunter.incoming_amount(), 1);
    assert_eq!(grazer.incoming_amount(), 0);
    assert_eq!(grazer.outgoing_amount(), 999);
    assert_eq!(hunter.outgoing_amount(), 1000);
}

#[test]
fn empty_stock_stays_empty() {
    let mut s = State::new("grass", "meat");
    while s.produce_food().is_some() {}
    assert_eq!(s.outgoing_amount(), 0);
    for _ in 0..3 {
        assert!(s.produce_food().is_none());
        assert_eq!(s.outgoing_amount(), 0);
    }
    assert!(s.consume_food(&food("meat", 2)));
    assert_eq!(s.incoming_amount(), 2);
    assert!(s.produce_food().is_none());
}

#[test]
fn inbound_portions_are_taken_in_until_the_stream_breaks() {
    match inbound_command(Ok(food("meat", 2))) {
        Some(StateCommand::Consume { food }) => assert_eq!((food.kind.as_str(), food.amount), ("meat", 2)),
        other => panic!("unexpected command {:?}", other),
    }
    assert!(inbound_command(Err(())).is_none());
}

#[test]
fn only_handed_out_portions_are_reported() {
    let source = "rabbit".to_string();
    let (id, report) = report_produced(&source, 4, None);
    assert_eq!(id, 4);
    assert!(report.is_none());
    let (id, report) = report_produced(&source, 4, Some(food("grass", 1)));
    assert_eq!(id, 5);
    let (e, f) = report.expect("a portion is reported");
    assert_eq!((e.source.as_str(), e.id, e.event_type, e.food_kind.as_str(), e.food_amount), ("rabbit", 5, 1, "grass", 1));
    assert_eq!((f.kind.as_str(), f.amount), ("grass", 1));
}

#[test]
fn only_the_first_thousand_requests_get_food_whatever_is_eaten() {
    let mut s = State::new("grass", "meat");
    let mut handed_out = 0;
    for n in 0..1500 {
        if n % 7 == 0 {
            assert!(s.consume_food(&food("meat", 1)));
        }
        match s.produce_food() {
            Some(f) => {
                assert!(n < 1000);
                assert_eq!((f.kind.as_str(), f.amount), ("grass", 1));
                handed_out += 1;
            }
            None => assert!(n >= 1000),
        }
        assert_eq!(s.outgoing_amount() + handed_out, 1000);
    }
    assert_eq!(handed_out, 1000);
}
