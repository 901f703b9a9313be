use ecosystem::ecosystem::Food;
use ecosystem::state::State;

#[test]
fn fresh_state_has_produced_nothing() {
    let s = State::new("organism1", "grass", "meat");
    assert_eq!(
        format!("{:?}", s),
        "State { source: \"organism1\", food_id: 0, outgoing: \"grass\", incoming: \"meat\" }"
    );
}

#[test]
fn produced_food_is_numbered_from_one() {
    let mut s = State::new("organism1", "grass", "meat");
    let a = s.produce_food();
    let b = s.produce_food();
    assert_eq!((a.id, a.source.as_str(), a.kind.as_str(), a.amount), (1, "organism1", "grass", 1));
    assert_eq!((b.id, b.source.as_str(), b.kind.as_str(), b.amount), (2, "organism1", "grass", 1));
    assert_eq!(
        format!("{:?}", s),
        "State { source: \"organism1\", food_id: 2, outgoing: \"grass\", incoming: \"meat\" }"
    );
}

#[test]
fn food_is_eaten_only_of_the_incoming_kind() {
    let mut s = State::new("organism2", "meat", "grass");
    let grass = Food { id: 7, source: "organism1".to_string(), kind: "grass".to_string(), amount: 1 };
    let meat = Food { id: 8, source: "organism1".to_string(), kind: "meat".to_string(), amount: 1 };
    assert!(s.consume_food(&grass));
    assert!(!s.consume_food(&meat));
    assert_eq!(
        format!("{:?}", s),
        "State { source: \"organism2\", food_id: 0, outgoing: \"meat\", incoming: \"grass\" }"
    );
}

#[test]
fn food_flows_between_matching_organisms() {
    let mut grazer = State::new("organism1", "grass", "meat");
    let mut hunter = State::new("organism2", "meat", "grass");
    let grass = grazer.produce_food();
    let meat = hunter.produce_food();
    assert!(hunter.consume_food(&grass));
    assert!(grazer.consume_food(&meat));
    assert!(!grazer.consume_food(&grass));
}

#[test]
fn food_id_counts_productions() {
    let mut s = State::new("organism1", "grass", "meat");
    assert_eq!(s.food_id(), 0);
    for k in 1..=5 {
        let f = s.produce_food();
        assert_eq!(f.id, k);
        assert_eq!(s.food_id(), k as usize);
    }
}

#[test]
fn ids_keep_counting_across_meals() {
    let mut s = State::new("organism1", "grass", "meat");
    let meat = Food { id: 1, source: "organism2".to_string(), kind: "meat".to_string(), amount: 1 };
    let mut last = 0;
    for k in 1..=20 {
        if k % 3 == 0 {
            assert!(s.consume_food(&meat));
        }
        let f = s.produce_food();
        assert_eq!(f.id, last + 1);
        assert_eq!((f.source.as_str(), f.kind.as_str(), f.amount), ("organism1", "grass", 1));
        last = f.id;
    }
    assert_eq!(s.food_id(), 20);
}
