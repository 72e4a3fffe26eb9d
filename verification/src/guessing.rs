//! A guessing game: a guarded guess value and the judgement of a guess
//! against the secret number.

use vstd::prelude::*;

verus! {

/// A guess, guaranteed to lie between 1 and 100.
pub struct Guess {
    value: i32,
}

impl Guess {
    /// The value of the guess, as seen by specifications.
    pub closed spec fn value_spec(&self) -> i32 {
        self.value
    }

    /// Wraps a value known to lie between 1 and 100.
    pub fn new(value: i32) -> (g: Guess)
        requires
            1 <= value <= 100,
        ensures
            g.value_spec() == value,
    {
        Guess { value }
    }
}

/// How a guess relates to the secret number.
#[derive(Debug, Clone, Copy, PartialEq, Eq, Structural)]
pub enum GuessOutcome {
    TooSmall,
    TooBig,
    Win,
}

/// Judges a guess against the secret number.
pub fn guess_outcome(guess: u32, secret: u32) -> (r: GuessOutcome)
    ensures
        r == GuessOutcome::TooSmall <==> guess < secret,
        r == GuessOutcome::TooBig <==> guess > secret,
        r == GuessOutcome::Win <==> guess == secret,
{
    if guess < secret {
        GuessOutcome::TooSmall
    } else if guess > secret {
        GuessOutcome::TooBig
    } else {
        GuessOutcome::Win
    }
}

} // verus!
