use car_game::collision::{CollisionEvent, CollisionPair, CollisionState};
use car_game::logic::{game_logic, has_room_for, Action, FrameInput, Keyboard, Mouse};
use car_game::state::GameState;

fn hit(other: &str) -> CollisionEvent {
    CollisionEvent {
        state: CollisionState::Begin,
        pair: CollisionPair("player".to_string(), other.to_string()),
    }
}

fn frame(hits: u32, reset: bool, click: bool, timer: bool) -> FrameInput {
    let mut collisions = Vec::new();
    for k in 0..hits {
        collisions.push(hit(&format!("car{}", k)));
    }
    FrameInput {
        keyboard: Keyboard { r_just_pressed: reset, ..Keyboard::default() },
        mouse: Mouse { left_just_pressed: click, location_known: true },
        collisions,
        spawn_timer_finished: timer,
    }
}

fn shown_score(action: &Action) -> Option<u32> {
    match action {
        Action::SetScoreText(text) => Some(text["Score: ".len()..].parse().unwrap()),
        _ => None,
    }
}

fn play(frames: &[FrameInput]) -> (GameState, Vec<u32>, Vec<String>) {
    let mut game = GameState::default();
    let mut seen = vec![game.score];
    let mut labels = Vec::new();
    for input in frames {
        assert!(has_room_for(input, &game));
        for action in game_logic(input, &mut game) {
            if let Some(score) = shown_score(&action) {
                seen.push(score);
            }
            if let Action::SpawnCar(label, _) = action {
                labels.push(label);
            }
        }
        seen.push(game.score);
    }
    (game, seen, labels)
}

#[test]
fn score_rises_by_one_per_hit() {
    let mut game = GameState::default();
    let mut expected = 0;
    for hits in [0, 1, 3, 0, 2] {
        game_logic(&frame(hits, false, false, false), &mut game);
        expected += hits;
        assert_eq!(game.score, expected);
    }
    assert_eq!(game.score, 6);
}

#[test]
fn every_hit_shows_the_next_score() {
    let (_, seen, _) = play(&[frame(3, false, false, false), frame(2, false, false, false)]);
    assert_eq!(seen, vec![0, 1, 2, 3, 3, 4, 5, 5]);
}

#[test]
fn high_score_is_the_highest_score_seen() {
    let frames = [
        frame(2, false, false, false),
        frame(1, true, false, false),
        frame(2, false, false, false),
        frame(0, true, false, false),
        frame(4, false, false, false),
        frame(1, true, false, false),
        frame(3, false, false, false),
    ];
    let (game, seen, _) = play(&frames);
    assert_eq!(game.high_score, *seen.iter().max().unwrap());
    assert_eq!(game.high_score, 5);
    assert_eq!(game.score, 3);
}

#[test]
fn high_score_holds_at_every_point_of_a_session() {
    let frames = [
        frame(1, false, false, false),
        frame(0, true, false, false),
        frame(3, true, false, false),
        frame(2, false, false, false),
        frame(2, false, false, false),
    ];
    for n in 0..=frames.len() {
        let (game, seen, _) = play(&frames[..n]);
        assert_eq!(game.high_score, *seen.iter().max().unwrap());
        assert!(game.score <= game.high_score);
    }
}

#[test]
fn high_score_never_falls() {
    let mut game = GameState::default();
    let mut last = 0;
    for (hits, reset) in [(2, false), (0, true), (1, false), (5, true), (0, false), (1, false)] {
        game_logic(&frame(hits, reset, false, false), &mut game);
        assert!(game.high_score >= last);
        last = game.high_score;
    }
    assert_eq!(last, 6);
}

#[test]
fn reset_always_ends_the_frame_at_zero() {
    let mut game = GameState::default();
    for hits in [0, 1, 4] {
        game_logic(&frame(3, false, false, false), &mut game);
        let actions = game_logic(&frame(hits, true, false, false), &mut game);
        assert_eq!(game.score, 0);
        assert_eq!(actions.last(), Some(&Action::SetScoreText("Score: 0".to_string())));
    }
    assert_eq!(game.high_score, 7);
}

#[test]
fn session_numbers_its_cars_without_gaps() {
    let frames = [
        frame(0, false, true, false),
        frame(1, false, false, true),
        frame(0, true, true, true),
        frame(0, false, false, false),
        frame(2, false, true, true),
    ];
    let (game, _, labels) = play(&frames);
    assert_eq!(labels, vec!["car0", "car1", "car2", "car3", "car4", "car5"]);
    assert_eq!(game.car_index, 6);
}

#[test]
fn spawned_cars_are_caught_by_the_player() {
    let mut game = GameState::default();
    let spawned = game_logic(&frame(0, false, true, true), &mut game);
    let mut input = frame(0, false, false, false);
    for action in spawned {
        if let Action::SpawnCar(label, _) = action {
            input.collisions.push(hit(&label));
        }
    }
    let actions = game_logic(&input, &mut game);
    assert_eq!(game.score, 2);
    assert_eq!(actions[0], Action::RemoveSprite("car0".to_string()));
    assert_eq!(actions[4], Action::RemoveSprite("car1".to_string()));
    assert!(!actions.contains(&Action::RemoveSprite("player".to_string())));
}
