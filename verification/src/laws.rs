//! What holds of the rules over a frame and over a whole session.
//!
//! A session is a run of frames. Its scores are the values the score takes
//! in the course of it: the score it starts with, the score after each
//! collision event, and the score at the end of each frame.

use vstd::prelude::*;
use crate::collision::{CollisionEventView, CollisionState};
use crate::logic::{
    after_collision, after_collisions, after_frame, frame_actions, hit_actions, hits,
    lemma_after_collisions, lemma_hits_prefix, player_label, scores, spawn_count, ActionView,
    FrameView,
};
use crate::state::{car_label, score_text, GameModel};
use crate::text::lemma_decimal_len;

verus! {

/// The state after a run of frames, taken in order.
pub open spec fn after_session(s: GameModel, frames: Seq<FrameView>) -> GameModel
    decreases frames.len(),
{
    if frames.len() == 0 {
        s
    } else {
        after_frame(after_session(s, frames.drop_last()), frames.last())
    }
}

/// The scores of one frame that starts in state `s`: the score after each
/// of its collision events, then the score the frame ends with.
pub open spec fn frame_scores(s: GameModel, f: FrameView) -> Seq<nat> {
    Seq::new(
        f.collisions.len(),
        |k: int| after_collisions(s, f.collisions.take(k + 1)).score,
    ).push(after_frame(s, f).score)
}

/// The scores of a session that starts in state `s`, in order.
pub open spec fn session_scores(s: GameModel, frames: Seq<FrameView>) -> Seq<nat>
    decreases frames.len(),
{
    if frames.len() == 0 {
        seq![s.score]
    } else {
        session_scores(s, frames.drop_last()) + frame_scores(
            after_session(s, frames.drop_last()),
            frames.last(),
        )
    }
}

/// How many cars a run of frames spawns.
pub open spec fn session_spawns(frames: Seq<FrameView>) -> nat
    decreases frames.len(),
{
    if frames.len() == 0 {
        0
    } else {
        session_spawns(frames.drop_last()) + spawn_count(frames.last())
    }
}

/// Each collision event that earns a point raises the score by exactly one,
/// and no other event changes it.
pub proof fn law_hit_scores_one(s: GameModel, e: CollisionEventView)
    ensures
        scores(e) ==> after_collision(s, e).score == s.score + 1,
        !scores(e) ==> after_collision(s, e) == s,
{
}

/// A frame in which the score is not set back raises it by the number of
/// its collision events that earn a point.
pub proof fn law_frame_counts_hits(s: GameModel, f: FrameView)
    requires
        !f.keyboard.r_just_pressed,
    ensures
        after_frame(s, f).score == s.score + hits(f.collisions),
{
    lemma_after_collisions(s, f.collisions);
}

/// A frame in which `R` went down ends with a score of zero, shows it, and
/// leaves the high score as the collisions of the frame made it.
pub proof fn law_reset_zeroes_score(s: GameModel, f: FrameView)
    requires
        f.keyboard.r_just_pressed,
    ensures
        after_frame(s, f).score == 0,
        after_frame(s, f).high_score == after_collisions(s, f.collisions).high_score,
        frame_actions(s, f).last() == ActionView::SetScoreText(score_text(0)),
{
}

/// After a run of collision events the high score is the larger of what it
/// was and the score reached, and it is still at least the score.
pub proof fn lemma_collisions_high_score(s: GameModel, events: Seq<CollisionEventView>)
    requires
        s.wf(),
    ensures
        after_collisions(s, events).wf(),
        after_collisions(s, events).score == s.score + hits(events),
        after_collisions(s, events).high_score == if s.score + hits(events) > s.high_score {
            s.score + hits(events)
        } else {
            s.high_score
        },
    decreases events.len(),
{
    if events.len() > 0 {
        lemma_collisions_high_score(s, events.drop_last());
    }
}

/// Over one frame the high score never falls, bounds every score of the
/// frame, and moves only to a score of the frame.
pub proof fn law_frame_high_score(s: GameModel, f: FrameView)
    requires
        s.wf(),
    ensures
        after_frame(s, f).wf(),
        after_frame(s, f).high_score >= s.high_score,
        forall|i: int|
            0 <= i < frame_scores(s, f).len() ==> frame_scores(s, f)[i] <= after_frame(
                s,
                f,
            ).high_score,
        after_frame(s, f).high_score == s.high_score || exists|i: int|
            0 <= i < frame_scores(s, f).len() && frame_scores(s, f)[i] == after_frame(
                s,
                f,
            ).high_score,
{
    let events = f.collisions;
    let n = events.len() as int;
    let end = after_frame(s, f);
    let seen = frame_scores(s, f);
    lemma_collisions_high_score(s, events);
    assert forall|i: int| 0 <= i < seen.len() implies seen[i] <= end.high_score by {
        if i < n {
            lemma_collisions_high_score(s, events.take(i + 1));
            lemma_hits_prefix(events, i + 1);
        }
    }
    if end.high_score != s.high_score {
        assert(hits(events) > 0);
        assert(n > 0);
        assert(events.take(n) =~= events);
        assert(seen[n - 1] == end.high_score);
    }
}

/// Over a session that starts with its high score at least its score, the
/// high score never falls, bounds every score of the session, and, where it
/// has moved, is one of those scores: it is the highest score seen.
pub proof fn law_high_score_is_highest_seen(s: GameModel, frames: Seq<FrameView>)
    requires
        s.wf(),
    ensures
        after_session(s, frames).wf(),
        after_session(s, frames).high_score >= s.high_score,
        forall|i: int|
            0 <= i < session_scores(s, frames).len() ==> session_scores(s, frames)[i]
                <= after_session(s, frames).high_score,
        after_session(s, frames).high_score == s.high_score || exists|i: int|
            0 <= i < session_scores(s, frames).len() && session_scores(s, frames)[i]
                == after_session(s, frames).high_score,
    decreases frames.len(),
{
    if frames.len() > 0 {
        let before = frames.drop_last();
        let mid = after_session(s, before);
        let f = frames.last();
        let end = after_session(s, frames);
        let early = session_scores(s, before);
        let late = frame_scores(mid, f);
        let all = session_scores(s, frames);
        law_high_score_is_highest_seen(s, before);
        law_frame_high_score(mid, f);
        assert(all == early + late);
        assert forall|i: int| 0 <= i < all.len() implies all[i] <= end.high_score by {
            if i < early.len() {
                assert(all[i] == early[i]);
            } else {
                assert(all[i] == late[i - early.len()]);
            }
        }
        if end.high_score != s.high_score {
            if end.high_score != mid.high_score {
                let j = choose|j: int| 0 <= j < late.len() && late[j] == end.high_score;
                assert(all[early.len() + j] == end.high_score);
            } else {
                let j = choose|j: int| 0 <= j < early.len() && early[j] == mid.high_score;
                assert(all[j] == end.high_score);
            }
        }
    }
}

/// In a session played from the initial state, the high score at the end is
/// the maximum of the scores of the session.
pub proof fn law_high_score_from_start(frames: Seq<FrameView>)
    ensures
        forall|i: int|
            0 <= i < session_scores(GameModel::initial(), frames).len() ==> session_scores(
                GameModel::initial(),
                frames,
            )[i] <= after_session(GameModel::initial(), frames).high_score,
        exists|i: int|
            0 <= i < session_scores(GameModel::initial(), frames).len() && session_scores(
                GameModel::initial(),
                frames,
            )[i] == after_session(GameModel::initial(), frames).high_score,
{
    let s = GameModel::initial();
    law_high_score_is_highest_seen(s, frames);
    lemma_session_scores_start(s, frames);
    if after_session(s, frames).high_score == s.high_score {
        assert(session_scores(s, frames)[0] == after_session(s, frames).high_score);
    }
}

/// The first score of a session is the score it starts with.
pub proof fn lemma_session_scores_start(s: GameModel, frames: Seq<FrameView>)
    ensures
        session_scores(s, frames).len() >= 1,
        session_scores(s, frames)[0] == s.score,
    decreases frames.len(),
{
    if frames.len() > 0 {
        lemma_session_scores_start(s, frames.drop_last());
    }
}

/// Over a session the car counter rises by the number of cars spawned, and
/// the settings of the spawn timer are never touched.
pub proof fn law_session_counts_cars(s: GameModel, frames: Seq<FrameView>)
    ensures
        after_session(s, frames).car_index == s.car_index + session_spawns(frames),
        after_session(s, frames).spawn_timer == s.spawn_timer,
    decreases frames.len(),
{
    if frames.len() > 0 {
        law_session_counts_cars(s, frames.drop_last());
        lemma_after_collisions(after_session(s, frames.drop_last()), frames.last().collisions);
    }
}

/// No spawned car is taken for the player: its label neither is the
/// player's label nor begins with it.
pub proof fn law_car_is_not_player(n: nat)
    ensures
        car_label(n) != player_label(),
        !player_label().is_prefix_of(car_label(n)),
{
    reveal_strlit("car");
    reveal_strlit("player");
    lemma_decimal_len(n);
    assert(car_label(n)[0] == 'c');
    assert(player_label()[0] == 'p');
    if player_label().is_prefix_of(car_label(n)) {
        assert(car_label(n).subrange(0, player_label().len() as int)[0] == 'c');
    }
}

/// A collision that begins between the player and a spawned car earns a
/// point and takes that car, and nothing else, off the field, whichever of
/// the two labels comes first.
pub proof fn law_player_catches_car(s: GameModel, n: nat)
    ensures
        ({
            let e = CollisionEventView {
                state: CollisionState::Begin,
                first: player_label(),
                second: car_label(n),
            };
            &&& scores(e)
            &&& hit_actions(s, e).first() == ActionView::RemoveSprite(car_label(n))
            &&& hit_actions(s, e)[1] == ActionView::SetScoreText(score_text(s.score + 1))
        }),
        ({
            let e = CollisionEventView {
                state: CollisionState::Begin,
                first: car_label(n),
                second: player_label(),
            };
            &&& scores(e)
            &&& hit_actions(s, e).first() == ActionView::RemoveSprite(car_label(n))
            &&& hit_actions(s, e)[1] == ActionView::SetScoreText(score_text(s.score + 1))
        }),
{
    law_car_is_not_player(n);
    assert(player_label() =~= player_label().subrange(0, player_label().len() as int));
}

} // verus!
