//! The rule that decides, per position, whether a character is raised.

use crate::chance::Probability;
use vstd::prelude::*;
use vstd::string::*;

verus! {

/// Why a strategy cannot be used.
#[derive(Clone, Copy, Debug, PartialEq, Eq, Structural)]
pub enum ConfigurationError {
    /// The step of a positional strategy is zero.
    ZeroStep,
}

impl ConfigurationError {
    /// A sentence that names the offending parameter.
    pub fn message(&self) -> (text: String)
        ensures
            text@ == "invalid parameter `nth`: the step must be at least 1"@,
    {
        match self {
            ConfigurationError::ZeroStep => String::from_str(
                "invalid parameter `nth`: the step must be at least 1",
            ),
        }
    }
}

/// How the characters to raise are chosen.
#[derive(Clone, Copy, Debug, PartialEq, Eq, Structural)]
pub enum MockingStrategy {
    /// Each character is chosen independently, with the given chance.
    Random(Probability),
    /// The characters whose zero-based index is a multiple of the step.
    NthChar(usize),
}

impl MockingStrategy {
    /// The step is positive, the chance a ratio between zero and one.
    pub open spec fn wf(self) -> bool {
        match self {
            MockingStrategy::Random(p) => p.wf(),
            MockingStrategy::NthChar(n) => n >= 1,
        }
    }

    /// Whether the strategy can answer `outcome` at `index`. A positional
    /// strategy has one answer; a random one is bound only where its chance
    /// is zero or one.
    pub open spec fn allows(self, index: int, outcome: bool) -> bool {
        match self {
            MockingStrategy::Random(p) => {
                &&& p.is_never() ==> !outcome
                &&& p.is_always() ==> outcome
            },
            MockingStrategy::NthChar(n) => outcome == (index % (n as int) == 0),
        }
    }

    /// The answer does not depend on chance.
    pub open spec fn is_certain(self) -> bool {
        match self {
            MockingStrategy::Random(p) => p.is_never() || p.is_always(),
            MockingStrategy::NthChar(_) => true,
        }
    }

    /// The answer of a certain strategy at `index`.
    pub open spec fn forecast(self, index: int) -> bool {
        match self {
            MockingStrategy::Random(p) => p.is_always(),
            MockingStrategy::NthChar(n) => index % (n as int) == 0,
        }
    }

    /// The answers of a certain strategy at the first `len` positions.
    pub open spec fn forecasts(self, len: nat) -> Seq<bool> {
        Seq::new(len, |i: int| self.forecast(i))
    }

    /// The strategy with an out-of-range chance replaced by even odds.
    pub open spec fn normalized(self) -> MockingStrategy {
        match self {
            MockingStrategy::Random(p) => MockingStrategy::Random(p.or_even_odds()),
            MockingStrategy::NthChar(n) => self,
        }
    }

    /// The strategy that a configuration asks for: `nth_char` with its step,
    /// `random` with its chance, and the default for any other word.
    pub open spec fn selected(kind: Seq<char>, nth: usize, probability: Probability) -> MockingStrategy {
        if kind == "nth_char"@ {
            MockingStrategy::NthChar(nth)
        } else if kind == "random"@ {
            MockingStrategy::Random(probability)
        } else {
            MockingStrategy::NthChar(2)
        }
    }

    /// Picks the strategy that a configuration asks for.
    pub fn select(kind: &str, nth: usize, probability: Probability) -> (strategy: MockingStrategy)
        ensures
            strategy == Self::selected(kind@, nth, probability),
    {
        let word = String::from_str(kind);
        if word == String::from_str("nth_char") {
            MockingStrategy::NthChar(nth)
        } else if word == String::from_str("random") {
            MockingStrategy::Random(probability)
        } else {
            MockingStrategy::NthChar(2)
        }
    }

    /// Decides whether the character at `index` is raised to upper case.
    pub fn should_mock(self, index: usize, _value: char) -> (raise: bool)
        requires
            self.wf(),
        ensures
            self.allows(index as int, raise),
            self.is_certain() ==> raise == self.forecast(index as int),
    {
        match self {
            MockingStrategy::Random(probability) => probability.flip(),
            MockingStrategy::NthChar(nth) => index % nth == 0,
        }
    }

    /// Validates a strategy: a zero step is an error, an out-of-range chance
    /// silently becomes even odds.
    pub fn checked(self) -> (checked: Result<MockingStrategy, ConfigurationError>)
        ensures
            self == MockingStrategy::NthChar(0) <==> checked is Err,
            checked is Err ==> checked->Err_0 == ConfigurationError::ZeroStep,
            checked is Ok ==> checked->Ok_0 == self.normalized() && checked->Ok_0.wf(),
    {
        match self {
            MockingStrategy::Random(p) => Ok(
                MockingStrategy::Random(Probability::new(p.numerator, p.denominator)),
            ),
            MockingStrategy::NthChar(n) => {
                if n == 0 {
                    Err(ConfigurationError::ZeroStep)
                } else {
                    Ok(self)
                }
            },
        }
    }

    /// One decision per character of `text`, in order.
    pub fn decisions(self, text: &str) -> (decisions: Vec<bool>)
        requires
            self.wf(),
        ensures
            decisions@.len() == text@.len(),
            forall|i: int| 0 <= i < text@.len() ==> self.allows(i, #[trigger] decisions@[i]),
            self.is_certain() ==> decisions@ == self.forecasts(text@.len()),
    {
        broadcast use group_string_axioms;

        let len: usize = text.unicode_len();
        let mut decisions: Vec<bool> = Vec::with_capacity(len);
        let mut index: usize = 0;
        for c in it: text.chars()
            invariant
                it.seq() == text@,
                len == text@.len(),
                index == it.index(),
                decisions@.len() == index,
                self.wf(),
                forall|i: int| 0 <= i < index ==> self.allows(i, #[trigger] decisions@[i]),
                self.is_certain() ==> forall|i: int|
                    0 <= i < index ==> #[trigger] decisions@[i] == self.forecast(i),
        {
            let raise = self.should_mock(index, c);
            decisions.push(raise);
            index = index + 1;
        }
        assert(self.is_certain() ==> decisions@ =~= self.forecasts(text@.len()));
        decisions
    }
}

impl Default for MockingStrategy {
    /// Every second character, starting with the first.
    fn default() -> (strategy: MockingStrategy)
        ensures
            strategy == MockingStrategy::NthChar(2),
    {
        MockingStrategy::NthChar(2)
    }
}

} // verus!
