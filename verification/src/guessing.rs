//! The decision of a number-guessing game: how a guess compares to the
//! secret number.  Drawing the secret and reading the guess are I/O and
//! stay with the caller.

use vstd::prelude::*;

verus! {

/// How a guess relates to the secret number.
#[derive(Clone, Copy, Debug, PartialEq, Eq, Structural)]
pub enum GuessOutcome {
    TooSmall,
    TooBig,
    Win,
}

/// What [`guess_outcome`] returns for a guess and a secret.
pub open spec fn spec_guess_outcome(guess: u32, secret: u32) -> GuessOutcome {
    if guess < secret {
        GuessOutcome::TooSmall
    } else if guess > secret {
        GuessOutcome::TooBig
    } else {
        GuessOutcome::Win
    }
}

/// Compares a guess against the secret number.
pub fn guess_outcome(guess: u32, secret: u32) -> (r: GuessOutcome)
    ensures
        r == spec_guess_outcome(guess, secret),
{
    if guess < secret {
        GuessOutcome::TooSmall
    } else if guess > secret {
        GuessOutcome::TooBig
    } else {
        GuessOutcome::Win
    }
}

} // verus!
