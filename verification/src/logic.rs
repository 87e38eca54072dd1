//! The rules of one frame: from the session state and what the engine
//! reports for the frame to the next state and the actions to perform.
//!
//! The engine is not called from here. Its caller gathers a `FrameInput`,
//! asks `game_logic` what to do, and carries the actions out in order.

use vstd::prelude::*;
use crate::collision::{one_starts_with, CollisionEvent, CollisionEventView, CollisionState};
use crate::state::{car_label, high_score_text, score_text, GameModel, GameState};
use crate::text::same_text;

verus! {

/// What the rules read of the keyboard in one frame.
#[derive(Clone, Copy, Debug, Default, PartialEq, Eq, Structural)]
pub struct Keyboard {
    /// `Q` went down in this frame.
    pub q_just_pressed: bool,
    /// `R` went down in this frame.
    pub r_just_pressed: bool,
    /// The up arrow is held down.
    pub up: bool,
    /// `W` is held down.
    pub w: bool,
    /// The down arrow is held down.
    pub down: bool,
    /// `S` is held down.
    pub s: bool,
    /// The right arrow is held down.
    pub right: bool,
    /// `D` is held down.
    pub d: bool,
    /// The left arrow is held down.
    pub left: bool,
    /// `A` is held down.
    pub a: bool,
}

/// What the rules read of the mouse in one frame.
#[derive(Clone, Copy, Debug, Default, PartialEq, Eq, Structural)]
pub struct Mouse {
    /// The left button went down in this frame.
    pub left_just_pressed: bool,
    /// The cursor is inside the window, so its location is known.
    pub location_known: bool,
}

/// Everything the engine reports for one frame that the rules depend on.
#[derive(Debug, Default)]
pub struct FrameInput {
    pub keyboard: Keyboard,
    pub mouse: Mouse,
    /// The collision events of the frame, in the order they were reported.
    pub collisions: Vec<CollisionEvent>,
    /// The spawn timer completed a period in this frame.
    pub spawn_timer_finished: bool,
}

/// A frame's input with the collision events taken by their views.
pub struct FrameView {
    pub keyboard: Keyboard,
    pub mouse: Mouse,
    pub collisions: Seq<CollisionEventView>,
    pub spawn_timer_finished: bool,
}

impl View for FrameInput {
    type V = FrameView;

    open spec fn view(&self) -> FrameView {
        FrameView {
            keyboard: self.keyboard,
            mouse: self.mouse,
            collisions: self.collisions.deep_view(),
            spawn_timer_finished: self.spawn_timer_finished,
        }
    }
}

/// A direction in which the player's car moves.
#[derive(Clone, Copy, Debug, PartialEq, Eq, Structural)]
pub enum Direction {
    Up,
    Down,
    Right,
    Left,
}

/// Where a newly spawned car is put.
#[derive(Clone, Copy, Debug, PartialEq, Eq, Structural)]
pub enum SpawnPlace {
    /// At the mouse cursor.
    Cursor,
    /// At a random position on the field.
    Random,
}

/// One thing for the engine's caller to do.
#[derive(Debug, PartialEq, Eq)]
pub enum Action {
    /// End the game after this frame.
    Exit,
    /// Take the sprite with this label off the field.
    RemoveSprite(String),
    /// Show this text in the score display.
    SetScoreText(String),
    /// Show this text in the high score display.
    SetHighScoreText(String),
    /// Play the sound of a hit.
    PlayHitSound,
    /// Move the player's car one step in this direction.
    MovePlayer(Direction),
    /// Add a car with this label, with collisions enabled, at this place.
    SpawnCar(String, SpawnPlace),
}

/// An action with its texts taken by their views.
pub enum ActionView {
    Exit,
    RemoveSprite(Seq<char>),
    SetScoreText(Seq<char>),
    SetHighScoreText(Seq<char>),
    PlayHitSound,
    MovePlayer(Direction),
    SpawnCar(Seq<char>, SpawnPlace),
}

impl View for Action {
    type V = ActionView;

    open spec fn view(&self) -> ActionView {
        match self {
            Action::Exit => ActionView::Exit,
            Action::RemoveSprite(label) => ActionView::RemoveSprite(label@),
            Action::SetScoreText(text) => ActionView::SetScoreText(text@),
            Action::SetHighScoreText(text) => ActionView::SetHighScoreText(text@),
            Action::PlayHitSound => ActionView::PlayHitSound,
            Action::MovePlayer(direction) => ActionView::MovePlayer(*direction),
            Action::SpawnCar(label, place) => ActionView::SpawnCar(label@, *place),
        }
    }
}

impl DeepView for Action {
    type V = ActionView;

    open spec fn deep_view(&self) -> ActionView {
        self@
    }
}

/// The label of the player's car.
pub open spec fn player_label() -> Seq<char> {
    "player"@
}

/// Whether a collision event earns a point: a collision begins, and exactly
/// one of the two labels begins with the player's label.
pub open spec fn scores(e: CollisionEventView) -> bool {
    e.state == CollisionState::Begin && one_starts_with(e.first, e.second, player_label())
}

/// The removal of the sprite labelled `label`, unless that is the player.
pub open spec fn removal(label: Seq<char>) -> Seq<ActionView> {
    if label != player_label() {
        seq![ActionView::RemoveSprite(label)]
    } else {
        Seq::empty()
    }
}

/// What a scoring collision leads to in state `s`: whatever the player ran
/// into leaves the field, the score display shows the new score, the high
/// score display follows where the new score is above the high score, and
/// the hit is heard.
pub open spec fn hit_actions(s: GameModel, e: CollisionEventView) -> Seq<ActionView> {
    removal(e.first) + removal(e.second) + seq![ActionView::SetScoreText(score_text(s.score + 1))]
        + (if s.score + 1 > s.high_score {
        seq![ActionView::SetHighScoreText(high_score_text(s.score + 1))]
    } else {
        Seq::empty()
    }) + seq![ActionView::PlayHitSound]
}

/// The state after one collision event.
pub open spec fn after_collision(s: GameModel, e: CollisionEventView) -> GameModel {
    if scores(e) {
        s.hit()
    } else {
        s
    }
}

/// The actions that one collision event leads to.
pub open spec fn collision_actions(s: GameModel, e: CollisionEventView) -> Seq<ActionView> {
    if scores(e) {
        hit_actions(s, e)
    } else {
        Seq::empty()
    }
}

/// The state after a run of collision events, taken in order.
pub open spec fn after_collisions(s: GameModel, events: Seq<CollisionEventView>) -> GameModel
    decreases events.len(),
{
    if events.len() == 0 {
        s
    } else {
        after_collision(after_collisions(s, events.drop_last()), events.last())
    }
}

/// The actions that a run of collision events leads to, in order.
pub open spec fn collisions_actions(
    s: GameModel,
    events: Seq<CollisionEventView>,
) -> Seq<ActionView>
    decreases events.len(),
{
    if events.len() == 0 {
        Seq::empty()
    } else {
        collisions_actions(s, events.drop_last()) + collision_actions(
            after_collisions(s, events.drop_last()),
            events.last(),
        )
    }
}

/// How many of the events earn a point.
pub open spec fn hits(events: Seq<CollisionEventView>) -> nat
    decreases events.len(),
{
    if events.len() == 0 {
        0
    } else {
        hits(events.drop_last()) + if scores(events.last()) {
            1nat
        } else {
            0nat
        }
    }
}

/// Whether a click spawns a car: the left button went down while the
/// cursor's location is known.
pub open spec fn click_spawns(f: FrameView) -> bool {
    f.mouse.left_just_pressed && f.mouse.location_known
}

/// How many cars the frame spawns.
pub open spec fn spawn_count(f: FrameView) -> nat {
    (if click_spawns(f) {
        1nat
    } else {
        0nat
    }) + (if f.spawn_timer_finished {
        1nat
    } else {
        0nat
    })
}

/// The exit, where `Q` went down.
pub open spec fn quit_actions(k: Keyboard) -> Seq<ActionView> {
    if k.q_just_pressed {
        seq![ActionView::Exit]
    } else {
        Seq::empty()
    }
}

/// A step in `direction`, where one of its two keys is held.
pub open spec fn step(held: bool, direction: Direction) -> Seq<ActionView> {
    if held {
        seq![ActionView::MovePlayer(direction)]
    } else {
        Seq::empty()
    }
}

/// The player's steps: up, down, right, left, each where its arrow key or
/// its letter key is held.
pub open spec fn move_actions(k: Keyboard) -> Seq<ActionView> {
    step(k.up || k.w, Direction::Up) + step(k.down || k.s, Direction::Down) + step(
        k.right || k.d,
        Direction::Right,
    ) + step(k.left || k.a, Direction::Left)
}

/// The cars spawned in state `s`: first the one at the cursor, then the one
/// that the timer brings, each labelled by the counter as it then stands.
pub open spec fn spawn_actions(s: GameModel, f: FrameView) -> Seq<ActionView> {
    if click_spawns(f) {
        seq![ActionView::SpawnCar(car_label(s.car_index), SpawnPlace::Cursor)] + (
        if f.spawn_timer_finished {
            seq![ActionView::SpawnCar(car_label(s.car_index + 1), SpawnPlace::Random)]
        } else {
            Seq::empty()
        })
    } else if f.spawn_timer_finished {
        seq![ActionView::SpawnCar(car_label(s.car_index), SpawnPlace::Random)]
    } else {
        Seq::empty()
    }
}

/// The score display set back, where `R` went down.
pub open spec fn reset_actions(k: Keyboard) -> Seq<ActionView> {
    if k.r_just_pressed {
        seq![ActionView::SetScoreText(score_text(0))]
    } else {
        Seq::empty()
    }
}

/// The state after a frame: the collisions are counted, the spawned cars
/// numbered, and the score set back where `R` went down.
pub open spec fn after_frame(s: GameModel, f: FrameView) -> GameModel {
    let collided = after_collisions(s, f.collisions);
    let spawned = GameModel { car_index: collided.car_index + spawn_count(f), ..collided };
    if f.keyboard.r_just_pressed {
        spawned.reset()
    } else {
        spawned
    }
}

/// The actions of a frame, in the order in which they are to be performed.
pub open spec fn frame_actions(s: GameModel, f: FrameView) -> Seq<ActionView> {
    quit_actions(f.keyboard) + collisions_actions(s, f.collisions) + move_actions(f.keyboard)
        + spawn_actions(after_collisions(s, f.collisions), f) + reset_actions(f.keyboard)
}

/// Whether the counters have room for the frame: neither the score nor the
/// car counter would pass the largest value they can hold.
pub open spec fn frame_fits(s: GameModel, f: FrameView) -> bool {
    &&& s.score + hits(f.collisions) <= u32::MAX
    &&& s.car_index + spawn_count(f) <= u32::MAX
}

/// A run of collision events changes nothing but the two scores, and raises
/// the score by the number of events that earn a point.
pub proof fn lemma_after_collisions(s: GameModel, events: Seq<CollisionEventView>)
    ensures
        after_collisions(s, events).score == s.score + hits(events),
        after_collisions(s, events).car_index == s.car_index,
        after_collisions(s, events).spawn_timer == s.spawn_timer,
        after_collisions(s, events).high_score >= s.high_score,
    decreases events.len(),
{
    if events.len() > 0 {
        lemma_after_collisions(s, events.drop_last());
    }
}

/// A prefix of a run of events holds no more scoring events than the run.
pub proof fn lemma_hits_prefix(events: Seq<CollisionEventView>, k: int)
    requires
        0 <= k <= events.len(),
    ensures
        hits(events.take(k)) <= hits(events),
    decreases events.len(),
{
    if k == events.len() {
        assert(events.take(k) =~= events);
    } else {
        lemma_hits_prefix(events.drop_last(), k);
        assert(events.drop_last().take(k) =~= events.take(k));
    }
}

/// Appends `action` to `actions`.
fn emit(actions: &mut Vec<Action>, action: Action)
    ensures
        final(actions).deep_view() == old(actions).deep_view().push(action@),
{
    actions.push(action);
    assert(actions.deep_view() =~= old(actions).deep_view().push(action@));
}

/// Appends the removal of the sprite labelled `label`, unless that is the
/// player.
fn emit_removal(actions: &mut Vec<Action>, label: &String)
    ensures
        final(actions).deep_view() == old(actions).deep_view() + removal(label@),
{
    if !same_text(label.as_str(), "player") {
        emit(actions, Action::RemoveSprite(label.clone()));
    }
    assert(actions.deep_view() =~= old(actions).deep_view() + removal(label@));
}

/// Whether `event` earns a point.
pub fn is_hit(event: &CollisionEvent) -> (b: bool)
    ensures
        b == scores(event@),
{
    event.state.is_begin() && event.pair.one_starts_with("player")
}

/// Handles one collision event: counts the point it earns, if any, and
/// appends what follows from it to `actions`.
pub fn handle_collision(
    event: &CollisionEvent,
    game_state: &mut GameState,
    actions: &mut Vec<Action>,
)
    requires
        scores(event@) ==> old(game_state).score < u32::MAX,
    ensures
        final(game_state)@ == after_collision(old(game_state)@, event@),
        final(actions).deep_view() == old(actions).deep_view() + collision_actions(
            old(game_state)@,
            event@,
        ),
{
    if is_hit(event) {
        emit_removal(actions, &event.pair.0);
        emit_removal(actions, &event.pair.1);
        let beaten = game_state.score >= game_state.high_score;
        game_state.record_hit();
        emit(actions, Action::SetScoreText(game_state.score_text()));
        if beaten {
            emit(actions, Action::SetHighScoreText(game_state.high_score_text()));
        }
        emit(actions, Action::PlayHitSound);
        assert(actions.deep_view() =~= old(actions).deep_view() + hit_actions(
            old(game_state)@,
            event@,
        ));
    } else {
        assert(actions.deep_view() =~= old(actions).deep_view() + Seq::<ActionView>::empty());
    }
}

/// Counts the events that earn a point.
pub fn count_hits(events: &Vec<CollisionEvent>) -> (n: usize)
    ensures
        n == hits(events.deep_view()),
{
    let ghost all = events.deep_view();
    let mut n: usize = 0;
    let mut i: usize = 0;
    while i < events.len()
        invariant
            i <= events.len(),
            all == events.deep_view(),
            n == hits(all.take(i as int)),
            n <= i,
        decreases events.len() - i,
    {
        assert(all.take(i + 1).drop_last() =~= all.take(i as int));
        if is_hit(&events[i]) {
            n += 1;
        }
        i += 1;
    }
    assert(all.take(i as int) =~= all);
    n
}

/// Whether the counters of `game_state` have room for the frame `input`.
pub fn has_room_for(input: &FrameInput, game_state: &GameState) -> (b: bool)
    ensures
        b == frame_fits(game_state@, input@),
{
    let hit_count = count_hits(&input.collisions);
    let click: u32 = if input.mouse.left_just_pressed && input.mouse.location_known {
        1
    } else {
        0
    };
    let timed: u32 = if input.spawn_timer_finished {
        1
    } else {
        0
    };
    hit_count <= (u32::MAX - game_state.score) as usize && click + timed <= u32::MAX
        - game_state.car_index
}

/// Appends a step in `direction` where `held` is set.
fn emit_step(actions: &mut Vec<Action>, held: bool, direction: Direction)
    ensures
        final(actions).deep_view() == old(actions).deep_view() + step(held, direction),
{
    if held {
        emit(actions, Action::MovePlayer(direction));
    }
    assert(actions.deep_view() =~= old(actions).deep_view() + step(held, direction));
}

/// Handles the collision events of a frame, in order.
fn handle_collisions(
    events: &Vec<CollisionEvent>,
    game_state: &mut GameState,
    actions: &mut Vec<Action>,
)
    requires
        old(game_state)@.score + hits(events.deep_view()) <= u32::MAX,
    ensures
        final(game_state)@ == after_collisions(old(game_state)@, events.deep_view()),
        final(actions).deep_view() == old(actions).deep_view() + collisions_actions(
            old(game_state)@,
            events.deep_view(),
        ),
{
    let ghost start = game_state@;
    let ghost before = actions.deep_view();
    let ghost all = events.deep_view();
    assert(actions.deep_view() =~= before + collisions_actions(start, all.take(0)));
    let mut i: usize = 0;
    while i < events.len()
        invariant
            i <= events.len(),
            all == events.deep_view(),
            start.score + hits(all) <= u32::MAX,
            game_state@ == after_collisions(start, all.take(i as int)),
            actions.deep_view() == before + collisions_actions(start, all.take(i as int)),
        decreases events.len() - i,
    {
        proof {
            assert(all.take(i + 1).drop_last() =~= all.take(i as int));
            lemma_after_collisions(start, all.take(i as int));
            lemma_hits_prefix(all, i + 1);
        }
        handle_collision(&events[i], game_state, actions);
        assert(actions.deep_view() =~= before + collisions_actions(start, all.take(i + 1)));
        i += 1;
    }
    assert(all.take(i as int) =~= all);
}

/// Appends the player's steps for the held movement keys.
fn handle_movement(keys: Keyboard, actions: &mut Vec<Action>)
    ensures
        final(actions).deep_view() == old(actions).deep_view() + move_actions(keys),
{
    emit_step(actions, keys.up || keys.w, Direction::Up);
    emit_step(actions, keys.down || keys.s, Direction::Down);
    emit_step(actions, keys.right || keys.d, Direction::Right);
    emit_step(actions, keys.left || keys.a, Direction::Left);
    assert(actions.deep_view() =~= old(actions).deep_view() + move_actions(keys));
}

/// Spawns the cars of a frame: one for a click, one for the timer.
fn handle_spawns(input: &FrameInput, game_state: &mut GameState, actions: &mut Vec<Action>)
    requires
        old(game_state)@.car_index + spawn_count(input@) <= u32::MAX,
    ensures
        final(game_state)@ == (GameModel {
            car_index: old(game_state)@.car_index + spawn_count(input@),
            ..old(game_state)@
        }),
        final(actions).deep_view() == old(actions).deep_view() + spawn_actions(
            old(game_state)@,
            input@,
        ),
{
    if input.mouse.left_just_pressed && input.mouse.location_known {
        let label = game_state.next_car_label();
        emit(actions, Action::SpawnCar(label, SpawnPlace::Cursor));
    }
    if input.spawn_timer_finished {
        let label = game_state.next_car_label();
        emit(actions, Action::SpawnCar(label, SpawnPlace::Random));
    }
    assert(actions.deep_view() =~= old(actions).deep_view() + spawn_actions(
        old(game_state)@,
        input@,
    ));
}

/// Sets the score back where `R` went down.
fn handle_reset(keys: Keyboard, game_state: &mut GameState, actions: &mut Vec<Action>)
    ensures
        final(game_state)@ == (if keys.r_just_pressed {
            old(game_state)@.reset()
        } else {
            old(game_state)@
        }),
        final(actions).deep_view() == old(actions).deep_view() + reset_actions(keys),
{
    if keys.r_just_pressed {
        game_state.reset_score();
        emit(actions, Action::SetScoreText(game_state.score_text()));
    }
    assert(actions.deep_view() =~= old(actions).deep_view() + reset_actions(keys));
}

/// Decides one frame of the game.
///
/// `Q` ends the game. Each collision that begins between the player and
/// something else removes the other sprite, earns a point, refreshes the
/// score display, lifts the high score where it is beaten, and sounds. The
/// held movement keys move the player. A click with the cursor inside the
/// window spawns a car at the cursor; a completed period of the spawn timer
/// spawns one at a random place. `R` sets the score back to zero.
///
/// The counters must have room for the frame (`has_room_for` tells).
pub fn game_logic(input: &FrameInput, game_state: &mut GameState) -> (actions: Vec<Action>)
    requires
        frame_fits(old(game_state)@, input@),
    ensures
        final(game_state)@ == after_frame(old(game_state)@, input@),
        actions.deep_view() == frame_actions(old(game_state)@, input@),
{
    let ghost start = game_state@;
    let keys = input.keyboard;
    let mut actions: Vec<Action> = Vec::new();
    if keys.q_just_pressed {
        emit(&mut actions, Action::Exit);
    }
    assert(actions.deep_view() =~= quit_actions(keys));
    proof {
        lemma_after_collisions(start, input@.collisions);
    }
    handle_collisions(&input.collisions, game_state, &mut actions);
    handle_movement(keys, &mut actions);
    handle_spawns(input, game_state, &mut actions);
    handle_reset(keys, game_state, &mut actions);
    actions
}

} // verus!
