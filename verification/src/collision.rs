//! Collision events between labelled sprites, as the game rules see them.

use vstd::prelude::*;
use crate::text::starts_with;

verus! {

/// Whether two sprites have just begun or just stopped overlapping.
#[derive(Clone, Copy, Debug, PartialEq, Eq, Structural)]
pub enum CollisionState {
    Begin,
    End,
}

impl CollisionState {
    /// Whether the value is `Begin`.
    pub fn is_begin(&self) -> (b: bool)
        ensures
            b == (*self == CollisionState::Begin),
    {
        match self {
            CollisionState::Begin => true,
            CollisionState::End => false,
        }
    }
}

/// The labels of the two sprites of a collision, in no particular order.
#[derive(Debug)]
pub struct CollisionPair(pub String, pub String);

/// Whether exactly one of the labels `first` and `second` begins with `text`.
pub open spec fn one_starts_with(first: Seq<char>, second: Seq<char>, text: Seq<char>) -> bool {
    text.is_prefix_of(first) != text.is_prefix_of(second)
}

impl CollisionPair {
    /// Whether exactly one of the two labels begins with `text`.
    pub fn one_starts_with(&self, text: &str) -> (b: bool)
        ensures
            b == one_starts_with(self.0@, self.1@, text@),
    {
        let a_matches = starts_with(self.0.as_str(), text);
        let b_matches = starts_with(self.1.as_str(), text);
        (a_matches && !b_matches) || (!a_matches && b_matches)
    }
}

/// A collision reported for one frame.
#[derive(Debug)]
pub struct CollisionEvent {
    pub state: CollisionState,
    pub pair: CollisionPair,
}

/// What the rules read of a collision event: its state and the two labels.
pub struct CollisionEventView {
    pub state: CollisionState,
    pub first: Seq<char>,
    pub second: Seq<char>,
}

impl View for CollisionEvent {
    type V = CollisionEventView;

    open spec fn view(&self) -> CollisionEventView {
        CollisionEventView { state: self.state, first: self.pair.0@, second: self.pair.1@ }
    }
}

impl DeepView for CollisionEvent {
    type V = CollisionEventView;

    open spec fn deep_view(&self) -> CollisionEventView {
        self@
    }
}

} // verus!
