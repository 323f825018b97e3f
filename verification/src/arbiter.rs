//! The score arbiter: fewer guesses is better, and zero stands for "no score yet".

use vstd::prelude::*;

verus! {

/// How a finished session compares with the best score on record.
#[derive(Clone, Copy, Debug, PartialEq, Eq, Structural)]
pub enum Outcome {
    /// No score was on record; this session sets the first one.
    FirstScore,
    /// The session used fewer guesses than the record.
    NewRecord,
    /// The session used exactly as many guesses as the record.
    Tied,
    /// The session used more guesses than the record.
    Missed,
}

/// The outcome of a session of `guesses` guesses against a record of `best`.
pub open spec fn outcome_of(best: u32, guesses: u32) -> Outcome {
    if best == 0 {
        Outcome::FirstScore
    } else if guesses < best {
        Outcome::NewRecord
    } else if guesses == best {
        Outcome::Tied
    } else {
        Outcome::Missed
    }
}

/// The record after a session of `guesses` guesses: the session's count if no
/// record stood or the session beat it, the old record otherwise.
pub open spec fn best_after(best: u32, guesses: u32) -> u32 {
    if best == 0 || guesses < best {
        guesses
    } else {
        best
    }
}

/// Decides the new record and the outcome from the old record and the
/// guess count of the session that just ended.
pub fn arbitrate(best: u32, guesses: u32) -> (r: (u32, Outcome))
    ensures
        best == 0 ==> r == (guesses, Outcome::FirstScore),
        best > 0 && guesses < best ==> r == (guesses, Outcome::NewRecord),
        best > 0 && guesses == best ==> r == (best, Outcome::Tied),
        best > 0 && guesses > best ==> r == (best, Outcome::Missed),
        r == (best_after(best, guesses), outcome_of(best, guesses)),
{
    if best == 0 {
        (guesses, Outcome::FirstScore)
    } else if guesses < best {
        (guesses, Outcome::NewRecord)
    } else if guesses == best {
        (best, Outcome::Tied)
    } else {
        (best, Outcome::Missed)
    }
}

/// The record to keep after a session: `arbitrate` without the outcome.
pub fn process_high_score(old_score: u32, new_score: u32) -> (final_score: u32)
    ensures
        final_score == best_after(old_score, new_score),
{
    arbitrate(old_score, new_score).0
}

/// A record that stands is never replaced by a worse one: it stays, or drops
/// to the strictly lower count of the session that beat it.
pub proof fn lemma_record_only_improves(best: u32, guesses: u32)
    requires
        best > 0,
    ensures
        best_after(best, guesses) == best || (best_after(best, guesses) == guesses && guesses
            < best),
        best_after(best, guesses) <= best,
{
}

} // verus!
