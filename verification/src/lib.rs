//! A number-guessing game: one secret number between 1 and 100, guesses typed
//! as lines of text, and a saved record of how many games were played and the
//! fewest guesses that ever won one.
//!
//! The crate holds the rules of the game and the layout of the saved record.
//! Reading the keyboard and the save file is left to the caller.

pub mod arbiter;
pub mod guess;
pub mod session;
pub mod state;
pub mod store;
