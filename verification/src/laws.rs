//! What holds of every mocked text.

use crate::casing::{lowercase_of, uppercase_of};
use crate::mocker::{piece, pieces, raised_at, rendered, StrategyMocker};
use crate::strategy::MockingStrategy;
use vstd::prelude::*;

verus! {

/// Joining pieces of one character each gives those characters, in order.
proof fn lemma_flatten_singles(parts: Seq<Seq<char>>)
    requires
        forall|i: int| 0 <= i < parts.len() ==> (#[trigger] parts[i]).len() == 1,
    ensures
        parts.flatten() == Seq::new(parts.len(), |i: int| parts[i][0]),
    decreases parts.len(),
{
    if parts.len() > 0 {
        let init = parts.drop_last();
        lemma_flatten_singles(init);
        init.lemma_flatten_push(parts.last());
        assert(init.push(parts.last()) == parts);
    }
    assert(parts.flatten() =~= Seq::new(parts.len(), |i: int| parts[i][0]));
}

/// The text in which every character that is not blacklisted is replaced by
/// its upper-case form.
pub open spec fn fully_raised(lower: Seq<char>, blacklist: Set<char>) -> Seq<char> {
    Seq::new(lower.len(), |i: int| piece(lower[i], true, blacklist)).flatten()
}

/// Every character of the lower-cased text contributes exactly one piece,
/// whatever was decided.
pub proof fn lemma_one_piece_per_character(
    lower: Seq<char>,
    decisions: Seq<bool>,
    blacklist: Set<char>,
)
    ensures
        pieces(lower, decisions, blacklist).len() == lower.len(),
{
}

/// Where no upper-case form in the text is longer than one character, the
/// rendering has the length of the text, and each position holds the
/// character that was there or its upper-case form.
pub proof fn lemma_rendering_preserves_positions(
    lower: Seq<char>,
    decisions: Seq<bool>,
    blacklist: Set<char>,
)
    requires
        forall|i: int| 0 <= i < lower.len() ==> uppercase_of(#[trigger] lower[i]).len() == 1,
    ensures
        rendered(lower, decisions, blacklist).len() == lower.len(),
        forall|i: int|
            0 <= i < lower.len() ==> #[trigger] rendered(lower, decisions, blacklist)[i] == piece(
                lower[i],
                raised_at(decisions, i),
                blacklist,
            )[0],
{
    lemma_flatten_singles(pieces(lower, decisions, blacklist));
}

/// Where neither lower-casing the input nor upper-casing one of its
/// characters changes the number of characters, every possible output is as
/// long as the input.
pub proof fn lemma_mock_preserves_length(mocker: StrategyMocker, input: Seq<char>, out: Seq<char>)
    requires
        mocker.may_produce(input, out),
        lowercase_of(input).len() == input.len(),
        forall|i: int|
            0 <= i < lowercase_of(input).len() ==> uppercase_of(
                #[trigger] lowercase_of(input)[i],
            ).len() == 1,
    ensures
        out.len() == input.len(),
{
    let decisions = choose|decisions: Seq<bool>|
        {
            &&& decisions.len() == lowercase_of(input).len()
            &&& forall|i: int|
                0 <= i < decisions.len() ==> mocker.strategy().allows(i, #[trigger] decisions[i])
            &&& out == #[trigger] rendered(lowercase_of(input), decisions, mocker.blacklist())
        };
    lemma_rendering_preserves_positions(lowercase_of(input), decisions, mocker.blacklist());
}

/// With a step of one every character is chosen: the output is the
/// lower-cased input with each character that is not blacklisted raised.
pub proof fn lemma_step_one_raises_all(mocker: StrategyMocker, input: Seq<char>)
    requires
        mocker.strategy() == MockingStrategy::NthChar(1),
    ensures
        mocker.mocked(input) == fully_raised(lowercase_of(input), mocker.blacklist()),
{
    let lower = lowercase_of(input);
    let decisions = mocker.strategy().forecasts(lower.len());
    assert(pieces(lower, decisions, mocker.blacklist()) =~= Seq::new(
        lower.len(),
        |i: int| piece(lower[i], true, mocker.blacklist()),
    ));
}

/// With a chance of zero no character is ever raised: the output is the
/// lower-cased input, whatever the blacklist.
pub proof fn lemma_never_keeps_lowercase(mocker: StrategyMocker, input: Seq<char>)
    requires
        mocker.strategy() is Random,
        mocker.strategy()->Random_0.is_never(),
        mocker.strategy().wf(),
    ensures
        mocker.mocked(input) == lowercase_of(input),
{
    let lower = lowercase_of(input);
    let decisions = mocker.strategy().forecasts(lower.len());
    let parts = pieces(lower, decisions, mocker.blacklist());
    lemma_flatten_singles(parts);
    assert(parts.flatten() =~= lower);
}

/// With a chance of one every character is chosen: the output is the
/// lower-cased input with each character that is not blacklisted raised.
pub proof fn lemma_always_raises_all(mocker: StrategyMocker, input: Seq<char>)
    requires
        mocker.strategy() is Random,
        mocker.strategy()->Random_0.is_always(),
    ensures
        mocker.mocked(input) == fully_raised(lowercase_of(input), mocker.blacklist()),
{
    let lower = lowercase_of(input);
    let decisions = mocker.strategy().forecasts(lower.len());
    assert(pieces(lower, decisions, mocker.blacklist()) =~= Seq::new(
        lower.len(),
        |i: int| piece(lower[i], true, mocker.blacklist()),
    ));
}

/// A strategy that is certain leaves one possible output.
pub proof fn lemma_certain_strategy_is_deterministic(
    mocker: StrategyMocker,
    input: Seq<char>,
    out: Seq<char>,
)
    requires
        mocker.strategy().is_certain(),
        mocker.strategy().wf(),
    ensures
        mocker.may_produce(input, out) <==> out == mocker.mocked(input),
{
    let lower = lowercase_of(input);
    let forecasts = mocker.strategy().forecasts(lower.len());
    if mocker.may_produce(input, out) {
        let decisions = choose|decisions: Seq<bool>|
            {
                &&& decisions.len() == lower.len()
                &&& forall|i: int|
                    0 <= i < decisions.len() ==> mocker.strategy().allows(
                        i,
                        #[trigger] decisions[i],
                    )
                &&& out == #[trigger] rendered(lower, decisions, mocker.blacklist())
            };
        assert forall|i: int| 0 <= i < decisions.len() implies decisions[i] == forecasts[i] by {
            assert(mocker.strategy().allows(i, decisions[i]));
        }
        assert(decisions =~= forecasts);
    }
    if out == mocker.mocked(input) {
        assert forall|i: int| 0 <= i < forecasts.len() implies mocker.strategy().allows(
            i,
            #[trigger] forecasts[i],
        ) by {}
        assert(out == rendered(lower, forecasts, mocker.blacklist()));
    }
}

} // verus!
