//! One session of the game: a secret number and the count of guesses made at it.

use crate::guess::{parse_guess, parsed_guess};
use vstd::prelude::*;

verus! {

/// The smallest number that the secret can be.
pub const TARGET_MIN: u8 = 1;

/// The largest number that the secret can be.
pub const TARGET_MAX: u8 = 100;

/// What the player is told about a guess.
#[derive(Clone, Copy, Debug, PartialEq, Eq, Structural)]
pub enum Hint {
    /// The guess is below the secret number.
    TooSmall,
    /// The guess is above the secret number.
    TooBig,
    /// The guess is the secret number.
    Win,
}

/// The hint that a guess earns against a secret number.
pub open spec fn hint_for(guess: int, target: int) -> Hint {
    if guess < target {
        Hint::TooSmall
    } else if guess > target {
        Hint::TooBig
    } else {
        Hint::Win
    }
}

/// Compares a guess with the secret number. Guesses outside the range that
/// the secret is drawn from are compared like any other.
pub fn classify(guess: u8, target: u8) -> (hint: Hint)
    ensures
        guess < target ==> hint == Hint::TooSmall,
        guess > target ==> hint == Hint::TooBig,
        guess == target ==> hint == Hint::Win,
        hint == hint_for(guess as int, target as int),
{
    if guess < target {
        Hint::TooSmall
    } else if guess > target {
        Hint::TooBig
    } else {
        Hint::Win
    }
}

/// `Rng::gen_range` of the `rand` crate on the generator of `thread_rng`,
/// with the range `low..=high`. It panics on an empty range, which `requires`
/// leaves out, and otherwise returns a number of that range. Which one is
/// left open: two calls need not agree. The generator seeds itself from the
/// operating system on first use and panics where that fails, whatever the
/// range.
#[verifier::external_body]
fn sample_inclusive(low: u8, high: u8) -> (n: u8)
    requires
        low <= high,
    ensures
        low <= n <= high,
{
    rand::Rng::gen_range(&mut rand::thread_rng(), low..=high)
}

/// A session as contracts see it.
pub struct SessionView {
    /// The secret number.
    pub target: int,
    /// The guesses counted so far.
    pub guesses: int,
}

/// A session in progress.
#[derive(Clone, Copy, Debug)]
pub struct Session {
    target: u8,
    guesses: u32,
}

impl View for Session {
    type V = SessionView;

    closed spec fn view(&self) -> SessionView {
        SessionView { target: self.target as int, guesses: self.guesses as int }
    }
}

impl Session {
    /// The secret lies in the range that it is drawn from.
    pub open spec fn wf(&self) -> bool {
        TARGET_MIN <= self@.target <= TARGET_MAX
    }

    /// Whether one more guess can be counted.
    pub open spec fn has_room(&self) -> bool {
        self@.guesses < u32::MAX
    }

    /// Begins a session with a secret drawn at random between 1 and 100.
    pub fn start() -> (s: Session)
        ensures
            s.wf(),
            s@.guesses == 0,
    {
        let target = sample_inclusive(TARGET_MIN, TARGET_MAX);
        Session { target, guesses: 0 }
    }

    /// Begins a session with the given secret, if it lies between 1 and 100.
    pub fn with_target(target: u8) -> (r: Option<Session>)
        ensures
            r is Some <==> TARGET_MIN <= target <= TARGET_MAX,
            r matches Some(s) ==> s.wf() && s@.target == target && s@.guesses == 0,
    {
        if TARGET_MIN <= target && target <= TARGET_MAX {
            Some(Session { target, guesses: 0 })
        } else {
            None
        }
    }

    /// The secret number.
    pub fn target(&self) -> (t: u8)
        ensures
            t == self@.target,
    {
        self.target
    }

    /// The guesses counted so far.
    pub fn guesses(&self) -> (n: u32)
        ensures
            n == self@.guesses,
    {
        self.guesses
    }

    /// Whether one more guess can be counted.
    pub fn can_count(&self) -> (b: bool)
        ensures
            b == self.has_room(),
    {
        self.guesses < u32::MAX
    }

    /// Counts a guess and compares it with the secret.
    pub fn guess(&mut self, guess: u8) -> (hint: Hint)
        requires
            old(self).has_room(),
        ensures
            final(self)@.target == old(self)@.target,
            final(self)@.guesses == old(self)@.guesses + 1,
            hint == hint_for(guess as int, old(self)@.target),
    {
        self.guesses = self.guesses + 1;
        classify(guess, self.target)
    }

    /// Takes one line of input. A line that holds no guess changes nothing
    /// and earns no hint; one that holds a guess is counted and compared
    /// with the secret. The session is over once the hint is `Win`.
    pub fn submit(&mut self, line: &str) -> (r: Option<Hint>)
        requires
            parsed_guess(line@) is Some ==> old(self).has_room(),
        ensures
            final(self)@.target == old(self)@.target,
            match parsed_guess(line@) {
                None => r is None && final(self)@.guesses == old(self)@.guesses,
                Some(g) => r == Some(hint_for(g as int, old(self)@.target)) && final(self)@.guesses
                    == old(self)@.guesses + 1,
            },
    {
        match parse_guess(line) {
            Some(g) => Some(self.guess(g)),
            None => None,
        }
    }
}

} // verus!
