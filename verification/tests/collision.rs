use car_game::collision::{CollisionEvent, CollisionPair, CollisionState};

fn pair(first: &str, second: &str) -> CollisionPair {
    CollisionPair(first.to_string(), second.to_string())
}

#[test]
fn begin_is_begin() {
    assert!(CollisionState::Begin.is_begin());
}

#[test]
fn end_is_not_begin() {
    assert!(!CollisionState::End.is_begin());
}

#[test]
fn one_starts_with_holds_when_only_the_first_matches() {
    assert!(pair("player", "car1").one_starts_with("player"));
}

#[test]
fn one_starts_with_holds_when_only_the_second_matches() {
    assert!(pair("car1", "player").one_starts_with("player"));
}

#[test]
fn one_starts_with_fails_when_both_match() {
    assert!(!pair("player", "player2").one_starts_with("player"));
    assert!(!pair("car1", "car2").one_starts_with("car"));
}

#[test]
fn one_starts_with_fails_when_neither_matches() {
    assert!(!pair("car1", "car2").one_starts_with("player"));
    assert!(!pair("", "").one_starts_with("player"));
}

#[test]
fn one_starts_with_looks_at_the_start_only() {
    assert!(!pair("the player", "car1").one_starts_with("player"));
    assert!(pair("player one", "a player").one_starts_with("player"));
}

#[test]
fn event_keeps_its_state_and_labels() {
    let event = CollisionEvent { state: CollisionState::End, pair: pair("a", "b") };
    assert_eq!(event.state, CollisionState::End);
    assert_eq!(event.pair.0, "a");
    assert_eq!(event.pair.1, "b");
}
