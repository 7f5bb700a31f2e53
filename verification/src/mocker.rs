//! The transformer: a strategy and a blacklist applied to a whole text.

use crate::blacklist::Blacklist;
use crate::casing::{lowercase_of, to_lowercase, to_uppercase, uppercase_of};
use crate::strategy::{ConfigurationError, MockingStrategy};
use vstd::prelude::*;
use vstd::string::*;

verus! {

/// Something that turns a text into its mocked form.
pub trait Mocker {
    /// Mocks the given text. The form of the result depends on how the
    /// mocker is configured.
    fn mock(&self, input: &str) -> String;
}

/// The decision at position `i`; positions without a decision are not raised.
pub open spec fn raised_at(decisions: Seq<bool>, i: int) -> bool {
    0 <= i < decisions.len() && decisions[i]
}

/// What a lower-case character contributes to the output: its upper-case
/// form, of whatever length, where it is chosen and not blacklisted, and
/// itself otherwise.
pub open spec fn piece(c: char, raise: bool, blacklist: Set<char>) -> Seq<char> {
    if raise && !blacklist.contains(c) {
        uppercase_of(c)
    } else {
        seq![c]
    }
}

/// The contributions of the characters of `lower`, one per character, in
/// order.
pub open spec fn pieces(lower: Seq<char>, decisions: Seq<bool>, blacklist: Set<char>) -> Seq<
    Seq<char>,
> {
    Seq::new(lower.len(), |i: int| piece(lower[i], raised_at(decisions, i), blacklist))
}

/// The pieces joined without separators.
pub open spec fn rendered(lower: Seq<char>, decisions: Seq<bool>, blacklist: Set<char>) -> Seq<
    char,
> {
    pieces(lower, decisions, blacklist).flatten()
}

/// Applies decisions that were already taken to a lower-case text.
pub fn render(lower: &str, decisions: &Vec<bool>, blacklist: &Blacklist) -> (out: String)
    ensures
        out@ == rendered(lower@, decisions@, blacklist@),
{
    broadcast use group_string_axioms;

    let ghost all = pieces(lower@, decisions@, blacklist@);
    let mut out = String::new();
    let mut index: usize = 0;
    let ghost mut emitted: int = 0;
    assert(all.take(0) =~= Seq::<Seq<char>>::empty());
    for c in it: lower.chars()
        invariant
            it.seq() == lower@,
            emitted == it.index(),
            index <= decisions.len(),
            index == emitted || (index == decisions.len() && index < emitted),
            all == pieces(lower@, decisions@, blacklist@),
            out@ == all.take(emitted).flatten(),
    {
        assert(all.take(it.index() + 1) == all.take(it.index()).push(all[it.index()]));
        let raise = index < decisions.len() && decisions[index];
        assert(c == lower@[it.index()]);
        assert(all[it.index()] == piece(c, raise, blacklist@));
        let ghost sofar = out@;
        if raise && !blacklist.contains(c) {
            let upper = to_uppercase(c);
            out.append(upper.as_str());
        } else {
            out.push(c);
            assert(out@ =~= sofar + seq![c]);
        }
        proof {
            let done = all.take(it.index());
            done.lemma_flatten_push(all[it.index()]);
            assert(done.push(all[it.index()]).flatten() =~= out@);
            emitted = emitted + 1;
        }
        if index < decisions.len() {
            index = index + 1;
        }
    }
    assert(all.take(emitted) =~= all);
    out
}

/// A mocker that lower-cases its input and then raises the characters that
/// its strategy chooses, except those on its blacklist.
pub struct StrategyMocker {
    blacklist: Blacklist,
    strategy: MockingStrategy,
}

impl StrategyMocker {
    /// The strategy can decide at every position.
    #[verifier::type_invariant]
    spec fn wf(self) -> bool {
        self.strategy.wf()
    }

    /// The strategy in use.
    pub closed spec fn strategy(self) -> MockingStrategy {
        self.strategy
    }

    /// The characters that are never raised.
    pub closed spec fn blacklist(self) -> Set<char> {
        self.blacklist@
    }

    /// Whether `out` is a possible result of mocking `input`: the rendering
    /// of the lower-cased input under decisions that the strategy allows.
    pub open spec fn may_produce(self, input: Seq<char>, out: Seq<char>) -> bool {
        exists|decisions: Seq<bool>|
            {
                &&& decisions.len() == lowercase_of(input).len()
                &&& forall|i: int|
                    0 <= i < decisions.len() ==> self.strategy().allows(i, #[trigger] decisions[i])
                &&& out == #[trigger] rendered(lowercase_of(input), decisions, self.blacklist())
            }
    }

    /// The one result of mocking `input` with a strategy that is certain.
    pub open spec fn mocked(self, input: Seq<char>) -> Seq<char> {
        rendered(
            lowercase_of(input),
            self.strategy().forecasts(lowercase_of(input).len()),
            self.blacklist(),
        )
    }

    /// A mocker with the given strategy and blacklist. A step of zero is
    /// refused; a chance that is out of range silently becomes even odds.
    pub fn new(strategy: MockingStrategy, blacklist: Blacklist) -> (made: Result<
        StrategyMocker,
        ConfigurationError,
    >)
        ensures
            strategy == MockingStrategy::NthChar(0) <==> made is Err,
            made is Err ==> made->Err_0 == ConfigurationError::ZeroStep,
            made is Ok ==> made->Ok_0.strategy() == strategy.normalized(),
            made is Ok ==> made->Ok_0.strategy().wf(),
            made is Ok ==> made->Ok_0.blacklist() == blacklist@,
    {
        match strategy.checked() {
            Ok(strategy) => Ok(StrategyMocker { blacklist, strategy }),
            Err(e) => Err(e),
        }
    }
}

impl Mocker for StrategyMocker {
    fn mock(&self, input: &str) -> (out: String)
        ensures
            self.strategy().wf(),
            self.may_produce(input@, out@),
            self.strategy().is_certain() ==> out@ == self.mocked(input@),
    {
        proof {
            use_type_invariant(self);
        }
        let lower = to_lowercase(input);
        let decisions = self.strategy.decisions(lower.as_str());
        let out = render(lower.as_str(), &decisions, &self.blacklist);
        assert(out@ == rendered(lowercase_of(input@), decisions@, self.blacklist()));
        out
    }
}

impl Default for StrategyMocker {
    /// Every second character, starting with the first, and no blacklist.
    fn default() -> (made: StrategyMocker)
        ensures
            made.strategy() == MockingStrategy::NthChar(2),
            made.blacklist() == Set::<char>::empty(),
    {
        StrategyMocker { blacklist: Blacklist::new(), strategy: MockingStrategy::NthChar(2) }
    }
}

} // verus!
