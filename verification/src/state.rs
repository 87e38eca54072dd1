//! The record a game session keeps: the two scores, the counter that numbers
//! the spawned cars, and the settings of the spawn timer.

use vstd::prelude::*;
use crate::text::{decimal, lemma_decimal_injective, numbered};

verus! {

/// Settings of the timer that paces the periodic spawning of cars. The timer
/// itself is run by the engine; the session only records how it is set up.
#[derive(Clone, Copy, Debug, PartialEq, Eq, Structural)]
pub struct SpawnTimer {
    /// Length of one period, in seconds.
    pub period_secs: u32,
    /// Whether the timer starts over when a period has elapsed.
    pub repeating: bool,
}

/// The state of a session.
#[derive(Clone, Copy, Debug, PartialEq, Eq, Structural)]
pub struct GameState {
    pub high_score: u32,
    pub score: u32,
    pub car_index: u32,
    pub spawn_timer: SpawnTimer,
}

/// The session state over unbounded numbers.
pub struct GameModel {
    pub high_score: nat,
    pub score: nat,
    pub car_index: nat,
    pub spawn_timer: SpawnTimer,
}

/// The text shown for a score of `n`.
pub open spec fn score_text(n: nat) -> Seq<char> {
    "Score: "@ + decimal(n)
}

/// The text shown for a high score of `n`.
pub open spec fn high_score_text(n: nat) -> Seq<char> {
    "High Score: "@ + decimal(n)
}

/// The label of the car spawned when the counter stands at `n`.
pub open spec fn car_label(n: nat) -> Seq<char> {
    "car"@ + decimal(n)
}

impl GameModel {
    /// The state a session starts in: nothing scored, no car spawned, and a
    /// spawn timer that repeats every two seconds.
    pub open spec fn initial() -> GameModel {
        GameModel {
            high_score: 0,
            score: 0,
            car_index: 0,
            spawn_timer: SpawnTimer { period_secs: 2, repeating: true },
        }
    }

    /// The high score is at least the current score.
    pub open spec fn wf(self) -> bool {
        self.score <= self.high_score
    }

    /// One more point: the score goes up by one, and the high score follows
    /// it where the new score is above it.
    pub open spec fn hit(self) -> GameModel {
        GameModel {
            score: self.score + 1,
            high_score: if self.score + 1 > self.high_score {
                self.score + 1
            } else {
                self.high_score
            },
            ..self
        }
    }

    /// The score starts over at zero; the high score stays.
    pub open spec fn reset(self) -> GameModel {
        GameModel { score: 0, ..self }
    }

    /// One more car has been given a label.
    pub open spec fn spawned(self) -> GameModel {
        GameModel { car_index: self.car_index + 1, ..self }
    }
}

impl View for GameState {
    type V = GameModel;

    open spec fn view(&self) -> GameModel {
        GameModel {
            high_score: self.high_score as nat,
            score: self.score as nat,
            car_index: self.car_index as nat,
            spawn_timer: self.spawn_timer,
        }
    }
}

impl Default for GameState {
    fn default() -> (state: GameState)
        ensures
            state@ == GameModel::initial(),
    {
        GameState {
            high_score: 0,
            score: 0,
            car_index: 0,
            spawn_timer: SpawnTimer { period_secs: 2, repeating: true },
        }
    }
}

impl GameState {
    /// Counts one point.
    pub fn record_hit(&mut self)
        requires
            old(self).score < u32::MAX,
        ensures
            final(self)@ == old(self)@.hit(),
    {
        self.score += 1;
        if self.score > self.high_score {
            self.high_score = self.score;
        }
    }

    /// Sets the score back to zero.
    pub fn reset_score(&mut self)
        ensures
            final(self)@ == old(self)@.reset(),
    {
        self.score = 0;
    }

    /// Hands out the label of the next car and advances the counter.
    pub fn next_car_label(&mut self) -> (label: String)
        requires
            old(self).car_index < u32::MAX,
        ensures
            label@ == car_label(old(self)@.car_index),
            final(self)@ == old(self)@.spawned(),
    {
        let label = numbered("car", self.car_index);
        self.car_index += 1;
        label
    }

    /// The text that shows the current score.
    pub fn score_text(&self) -> (text: String)
        ensures
            text@ == score_text(self@.score),
    {
        numbered("Score: ", self.score)
    }

    /// The text that shows the high score.
    pub fn high_score_text(&self) -> (text: String)
        ensures
            text@ == high_score_text(self@.high_score),
    {
        numbered("High Score: ", self.high_score)
    }
}

/// Cars spawned at different counter values get different labels.
pub proof fn lemma_car_labels_distinct(i: nat, j: nat)
    requires
        i != j,
    ensures
        car_label(i) != car_label(j),
{
    if car_label(i) == car_label(j) {
        let k = "car"@.len() as int;
        assert(decimal(i) =~= car_label(i).subrange(k, car_label(i).len() as int));
        assert(decimal(j) =~= car_label(j).subrange(k, car_label(j).len() as int));
        lemma_decimal_injective(i, j);
    }
}

} // verus!
