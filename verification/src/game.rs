//! The guessing game: a secret number between 1 and 100 and the verdict on
//! each guess. Drawing the secret is the one chancy step; judging a guess is
//! pure and exact.

use vstd::prelude::*;

verus! {

/// Relies on rand::random_range: a value sampled uniformly from the given
/// half-open range. It panics only on an empty range, which the
/// precondition rules out.
#[verifier::external_body]
fn random_in_range(low: u32, high: u32) -> (r: u32)
    requires
        low < high,
    ensures
        low <= r < high,
{
    rand::random_range(low..high)
}

/// A fresh secret for one round: some number between 1 and 100. Which one
/// is chance; every call may differ.
pub fn new_secret_number() -> (r: u32)
    ensures
        1 <= r <= 100,
{
    random_in_range(1, 101)
}

/// The verdict on one guess.
#[derive(Clone, Copy, Debug, PartialEq, Eq, Structural)]
pub enum GuessOutcome {
    /// The guess is below the secret.
    TooSmall,
    /// The guess is above the secret.
    TooBig,
    /// The guess is the secret.
    Win,
}

/// Judges a guess against the secret: below, above, or spot on.
pub fn guess_outcome(guess: u32, secret: u32) -> (r: GuessOutcome)
    ensures
        r == (if guess < secret {
            GuessOutcome::TooSmall
        } else if guess > secret {
            GuessOutcome::TooBig
        } else {
            GuessOutcome::Win
        }),
        r == GuessOutcome::Win <==> guess == secret,
{
    if guess < secret {
        GuessOutcome::TooSmall
    } else if guess > secret {
        GuessOutcome::TooBig
    } else {
        GuessOutcome::Win
    }
}

} // verus!
