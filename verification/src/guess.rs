use vstd::prelude::*;

verus! {

/// A number someone has guessed, known to lie in the playable range
/// 1 ..= 100.
pub struct Guess {
    value: i32,
}

impl Guess {
    /// The number this guess holds.
    pub closed spec fn spec_value(&self) -> int {
        self.value as int
    }

    /// Every guess that can be built is inside the playable range.
    pub closed spec fn wf(&self) -> bool {
        1 <= self.value <= 100
    }

    pub fn new(value: i32) -> (g: Guess)
        requires
            1 <= value <= 100,
        ensures
            g.wf(),
            g.spec_value() == value,
    {
        Guess { value }
    }

    pub fn value(&self) -> (v: i32)
        ensures
            v == self.spec_value(),
    {
        self.value
    }
}

/// How a guess stands against the secret number.
#[derive(Debug, PartialEq, Eq, Structural)]
pub enum GuessOutcome {
    TooLow,
    TooHigh,
    Correct,
}

/// Whether a raw number is inside the playable range 1 ..= 100.
pub fn guess_in_range(value: i32) -> (ok: bool)
    ensures
        ok <==> 1 <= value <= 100,
{
    1 <= value && value <= 100
}

/// Compares a guess against the secret number and says which way it missed,
/// if it missed.
pub fn guess_outcome(guess: &Guess, secret: &Guess) -> (o: GuessOutcome)
    ensures
        o is TooLow <==> guess.spec_value() < secret.spec_value(),
        o is TooHigh <==> guess.spec_value() > secret.spec_value(),
        o is Correct <==> guess.spec_value() == secret.spec_value(),
{
    let g: i32 = guess.value();
    let s: i32 = secret.value();
    if g < s {
        GuessOutcome::TooLow
    } else if g > s {
        GuessOutcome::TooHigh
    } else {
        GuessOutcome::Correct
    }
}

} // verus!
