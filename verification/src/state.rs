//! The saved record of the game.

use crate::arbiter::{arbitrate, best_after, outcome_of, Outcome};
use vstd::prelude::*;

verus! {

/// What is kept from one run to the next.
#[derive(Clone, Copy, Debug, PartialEq, Eq, Structural)]
pub struct GameState {
    /// Sessions played so far.
    pub game_count: u32,
    /// Fewest guesses that ever won a session; 0 while none was recorded.
    pub high_score: u32,
}

impl GameState {
    /// The record of a player who has not played yet.
    pub open spec fn fresh() -> GameState {
        GameState { game_count: 0, high_score: 0 }
    }

    /// The record after one more session that took `guesses` guesses.
    pub open spec fn after_session(self, guesses: u32) -> GameState
        recommends
            self.game_count < u32::MAX,
    {
        GameState {
            game_count: (self.game_count + 1) as u32,
            high_score: best_after(self.high_score, guesses),
        }
    }

    /// The record of a player who has not played yet: both fields zero.
    pub fn new() -> (s: GameState)
        ensures
            s == GameState::fresh(),
    {
        GameState { game_count: 0, high_score: 0 }
    }

    /// Whether a score is on record.
    pub fn has_high_score(&self) -> (b: bool)
        ensures
            b == (self.high_score != 0),
    {
        self.high_score != 0
    }

    /// Counts one more session and settles its score against the record.
    /// Returns the record to save and how the session compared.
    pub fn record_session(&self, guesses: u32) -> (r: (GameState, Outcome))
        requires
            self.game_count < u32::MAX,
        ensures
            r.0 == self.after_session(guesses),
            r.0.game_count == self.game_count + 1,
            r.1 == outcome_of(self.high_score, guesses),
    {
        let (high_score, outcome) = arbitrate(self.high_score, guesses);
        (GameState { game_count: self.game_count + 1, high_score }, outcome)
    }
}

} // verus!
