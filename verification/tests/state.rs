use car_game::state::{GameState, SpawnTimer};

fn timer() -> SpawnTimer {
    SpawnTimer { period_secs: 2, repeating: true }
}

#[test]
fn default_state_starts_from_nothing() {
    let state = GameState::default();
    assert_eq!(state.high_score, 0);
    assert_eq!(state.score, 0);
    assert_eq!(state.car_index, 0);
}

#[test]
fn default_timer_repeats_every_two_seconds() {
    let state = GameState::default();
    assert_eq!(state.spawn_timer, SpawnTimer { period_secs: 2, repeating: true });
}

#[test]
fn hit_raises_score_by_one() {
    let mut state = GameState { high_score: 9, score: 3, car_index: 5, spawn_timer: timer() };
    state.record_hit();
    assert_eq!(state, GameState { high_score: 9, score: 4, car_index: 5, spawn_timer: timer() });
}

#[test]
fn hit_that_only_reaches_the_high_score_leaves_it() {
    let mut state = GameState { high_score: 4, score: 3, car_index: 0, spawn_timer: timer() };
    state.record_hit();
    assert_eq!(state.score, 4);
    assert_eq!(state.high_score, 4);
}

#[test]
fn hit_above_the_high_score_lifts_it() {
    let mut state = GameState { high_score: 4, score: 4, car_index: 0, spawn_timer: timer() };
    state.record_hit();
    assert_eq!(state.score, 5);
    assert_eq!(state.high_score, 5);
}

#[test]
fn hit_reaches_the_largest_score() {
    let mut state =
        GameState { high_score: 0, score: u32::MAX - 1, car_index: 0, spawn_timer: timer() };
    state.record_hit();
    assert_eq!(state.score, u32::MAX);
    assert_eq!(state.high_score, u32::MAX);
}

#[test]
fn reset_zeroes_the_score_and_keeps_the_rest() {
    let mut state = GameState { high_score: 8, score: 6, car_index: 11, spawn_timer: timer() };
    state.reset_score();
    assert_eq!(state, GameState { high_score: 8, score: 0, car_index: 11, spawn_timer: timer() });
}

#[test]
fn reset_of_a_zero_score_changes_nothing() {
    let mut state = GameState::default();
    state.reset_score();
    assert_eq!(state, GameState::default());
}

#[test]
fn car_labels_count_up_from_zero() {
    let mut state = GameState::default();
    assert_eq!(state.next_car_label(), "car0");
    assert_eq!(state.next_car_label(), "car1");
    assert_eq!(state.next_car_label(), "car2");
    assert_eq!(state.car_index, 3);
    assert_eq!(state.score, 0);
    assert_eq!(state.high_score, 0);
}

#[test]
fn car_label_shows_the_counter_in_decimal() {
    let mut state = GameState { high_score: 0, score: 0, car_index: 1234, spawn_timer: timer() };
    assert_eq!(state.next_car_label(), "car1234");
    assert_eq!(state.car_index, 1235);
}

#[test]
fn car_labels_are_pairwise_distinct() {
    let mut state = GameState::default();
    let mut labels: Vec<String> = Vec::new();
    while state.car_index < 300 {
        labels.push(state.next_car_label());
    }
    for i in 0..labels.len() {
        for j in 0..i {
            assert_ne!(labels[i], labels[j]);
        }
    }
}

#[test]
fn score_text_shows_the_score() {
    let state = GameState { high_score: 20, score: 7, car_index: 0, spawn_timer: timer() };
    assert_eq!(state.score_text(), "Score: 7");
}

#[test]
fn score_text_of_a_fresh_state() {
    assert_eq!(GameState::default().score_text(), "Score: 0");
}

#[test]
fn high_score_text_shows_the_high_score() {
    let state = GameState { high_score: 20, score: 7, car_index: 0, spawn_timer: timer() };
    assert_eq!(state.high_score_text(), "High Score: 20");
}

#[test]
fn high_score_text_of_a_fresh_state() {
    assert_eq!(GameState::default().high_score_text(), "High Score: 0");
}
