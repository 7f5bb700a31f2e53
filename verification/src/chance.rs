//! Probabilities as ratios of integers, and the coin that is flipped with them.

use rand::Rng;
use vstd::prelude::*;

verus! {

/// The chance `numerator / denominator` of an event.
#[derive(Clone, Copy, Debug, PartialEq, Eq, Structural)]
pub struct Probability {
    pub numerator: u32,
    pub denominator: u32,
}

impl Probability {
    /// A ratio between zero and one, both ends included.
    pub open spec fn wf(self) -> bool {
        self.numerator <= self.denominator && self.denominator > 0
    }

    /// The event never happens.
    pub open spec fn is_never(self) -> bool {
        self.numerator == 0
    }

    /// The event always happens.
    pub open spec fn is_always(self) -> bool {
        self.numerator == self.denominator
    }

    /// One in two: the chance that stands in for a ratio that is out of range.
    pub open spec fn even_odds() -> Probability {
        Probability { numerator: 1, denominator: 2 }
    }

    /// The ratio itself where it is well formed, even odds where it is not.
    pub open spec fn or_even_odds(self) -> Probability {
        if self.wf() {
            self
        } else {
            Self::even_odds()
        }
    }

    /// The chance `numerator / denominator`. A ratio above one, or with a
    /// zero denominator, is no error: it silently becomes even odds.
    pub fn new(numerator: u32, denominator: u32) -> (p: Probability)
        ensures
            p == (Probability { numerator, denominator }).or_even_odds(),
            p.wf(),
    {
        if numerator <= denominator && denominator > 0 {
            Probability { numerator, denominator }
        } else {
            Probability { numerator: 1, denominator: 2 }
        }
    }

    /// Flips a coin that lands on `true` with this chance.
    pub fn flip(self) -> (heads: bool)
        requires
            self.wf(),
        ensures
            self.is_never() ==> !heads,
            self.is_always() ==> heads,
    {
        gen_ratio(self.numerator, self.denominator)
    }
}

impl Default for Probability {
    fn default() -> (p: Probability)
        ensures
            p == Probability::even_odds(),
    {
        Probability { numerator: 1, denominator: 2 }
    }
}

/// Draws from the thread-local generator with `rand::Rng::gen_ratio`.
///
/// The outcome is random, so only the two certain cases are claimed, as the
/// generator documents them: a zero numerator never gives `true`, a numerator
/// equal to the denominator always does. The generator panics on a zero
/// denominator and on a numerator above the denominator; both are excluded.
#[verifier::external_body]
fn gen_ratio(numerator: u32, denominator: u32) -> (heads: bool)
    requires
        numerator <= denominator,
        denominator > 0,
    ensures
        numerator == 0 ==> !heads,
        numerator == denominator ==> heads,
{
    rand::thread_rng().gen_ratio(numerator, denominator)
}

} // verus!
