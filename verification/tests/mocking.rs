use mockbob::mocker::render;
use mockbob::{Blacklist, ConfigurationError, Mocker, MockingStrategy, Probability, StrategyMocker};

fn stepping(step: usize, blacklist: Vec<char>) -> StrategyMocker {
    StrategyMocker::new(MockingStrategy::NthChar(step), Blacklist::from_chars(&blacklist)).unwrap()
}

fn random(numerator: u32, denominator: u32, blacklist: Vec<char>) -> StrategyMocker {
    let strategy = MockingStrategy::Random(Probability { numerator, denominator });
    StrategyMocker::new(strategy, Blacklist::from_chars(&blacklist)).unwrap()
}

#[test]
fn default_mocker_raises_even_positions() {
    let mocker = StrategyMocker::default();
    assert_eq!("MoCk tHiS FoR Me", mocker.mock("mock this for me"));
}

#[test]
fn step_two_equals_default() {
    let mocker = stepping(2, vec![]);
    assert_eq!("MoCk tHiS FoR Me", mocker.mock("mock this for me"));
    assert_eq!(MockingStrategy::NthChar(2), MockingStrategy::default());
}

#[test]
fn step_one_raises_every_letter() {
    let mocker = stepping(1, vec![]);
    assert_eq!("ABC 123", mocker.mock("abc 123"));
}

#[test]
fn step_three_raises_every_third() {
    let mocker = stepping(3, vec![]);
    assert_eq!("AbcDefG", mocker.mock("abcdefg"));
}

#[test]
fn input_is_lowered_first() {
    let mocker = stepping(2, vec![]);
    assert_eq!("HeLlO WoRlD", mocker.mock("HELLO WORLD"));
    assert_eq!("HeLlO WoRlD", mocker.mock("hElLo wOrLd"));
}

#[test]
fn blacklisted_characters_stay_low() {
    let mocker = stepping(1, vec!['a']);
    assert_eq!("aaRDVaRK", mocker.mock("aardvark"));
    assert_eq!("aaRDVaRK", mocker.mock("AARDVARK"));
}

#[test]
fn blacklist_is_matched_against_lowered_characters() {
    let mocker = stepping(1, vec!['A']);
    assert_eq!("AA", mocker.mock("Aa"));
}

#[test]
fn empty_input_gives_empty_output() {
    assert_eq!("", StrategyMocker::default().mock(""));
    assert_eq!("", random(1, 2, vec![]).mock(""));
}

#[test]
fn uncased_characters_pass_through() {
    let mocker = stepping(1, vec![]);
    assert_eq!("123 !?-_ 456", mocker.mock("123 !?-_ 456"));
}

#[test]
fn expanding_upper_case_is_emitted_whole() {
    let mocker = stepping(1, vec![]);
    assert_eq!("SS", mocker.mock("\u{df}"));
    assert_eq!("STRASSE", mocker.mock("stra\u{df}e"));
}

#[test]
fn zero_chance_gives_lowered_input() {
    let mocker = random(0, 1, vec![]);
    for _ in 0..50 {
        assert_eq!("mock this for me, 123", mocker.mock("Mock THIS for me, 123"));
    }
}

#[test]
fn full_chance_gives_raised_input() {
    let mocker = random(1, 1, vec![]);
    for _ in 0..50 {
        assert_eq!("MOCK THIS FOR ME, 123", mocker.mock("Mock this for me, 123"));
    }
}

#[test]
fn full_chance_respects_blacklist() {
    let mocker = random(7, 7, vec!['o', 'e']);
    for _ in 0..50 {
        assert_eq!("MoCK THIS FoR Me", mocker.mock("mock this for me"));
    }
}

#[test]
fn random_output_keeps_positions() {
    let mocker = random(1, 2, vec![]);
    let input = "The quick brown fox jumps over the lazy dog";
    for _ in 0..50 {
        let out = mocker.mock(input);
        assert_eq!(input.chars().count(), out.chars().count());
        assert_eq!(input.to_lowercase(), out.to_lowercase());
    }
}

#[test]
fn random_output_varies() {
    let mocker = random(1, 2, vec![]);
    let input = "the quick brown fox jumps over the lazy dog and keeps running";
    let first = mocker.mock(input);
    let mut differs = false;
    for _ in 0..200 {
        if mocker.mock(input) != first {
            differs = true;
        }
    }
    assert!(differs);
}

#[test]
fn step_output_keeps_positions() {
    let mocker = stepping(2, vec!['c']);
    let input = "abcdefgh";
    let out = mocker.mock(input);
    assert_eq!("AbcdEfGh", out);
    assert_eq!(input.chars().count(), out.chars().count());
}

#[test]
fn mocking_twice_may_differ() {
    let mocker = stepping(2, vec![]);
    let once = mocker.mock("\u{df}ab");
    let twice = mocker.mock(&once);
    assert_eq!("SSaB", once);
    assert_eq!("SsAb", twice);
    assert_ne!(once, twice);
}

#[test]
fn zero_step_is_refused() {
    let made = StrategyMocker::new(MockingStrategy::NthChar(0), Blacklist::new());
    assert!(matches!(made, Err(ConfigurationError::ZeroStep)));
    assert_eq!(Err(ConfigurationError::ZeroStep), MockingStrategy::NthChar(0).checked());
}

#[test]
fn error_message_names_the_parameter() {
    let message = ConfigurationError::ZeroStep.message();
    assert_eq!("invalid parameter `nth`: the step must be at least 1", message);
    assert!(message.contains("nth"));
}

#[test]
fn positive_step_is_accepted() {
    assert_eq!(Ok(MockingStrategy::NthChar(1)), MockingStrategy::NthChar(1).checked());
    assert_eq!(
        Ok(MockingStrategy::NthChar(usize::MAX)),
        MockingStrategy::NthChar(usize::MAX).checked()
    );
}

#[test]
fn out_of_range_chance_becomes_even_odds() {
    let half = Probability { numerator: 1, denominator: 2 };
    assert_eq!(half, Probability::new(3, 2));
    assert_eq!(half, Probability::new(0, 0));
    assert_eq!(half, Probability::new(1, 0));
    assert_eq!(half, Probability::default());
    let above = MockingStrategy::Random(Probability { numerator: 3, denominator: 2 });
    assert_eq!(Ok(MockingStrategy::Random(half)), above.checked());
    let made = StrategyMocker::new(above, Blacklist::new());
    assert!(made.is_ok());
    assert_eq!("abc".len(), made.unwrap().mock("abc").len());
}

#[test]
fn in_range_chance_is_kept() {
    assert_eq!(Probability { numerator: 1, denominator: 4 }, Probability::new(1, 4));
    assert_eq!(Probability { numerator: 0, denominator: 9 }, Probability::new(0, 9));
    assert_eq!(Probability { numerator: 9, denominator: 9 }, Probability::new(9, 9));
    let kept = MockingStrategy::Random(Probability { numerator: 2, denominator: 3 });
    assert_eq!(Ok(kept), kept.checked());
}

#[test]
fn certain_coins_never_surprise() {
    for _ in 0..100 {
        assert!(!Probability::new(0, 5).flip());
        assert!(Probability::new(5, 5).flip());
    }
}

#[test]
fn even_coin_lands_both_ways() {
    let coin = Probability::default();
    let mut heads = 0;
    let mut tails = 0;
    for _ in 0..1000 {
        if coin.flip() {
            heads += 1;
        } else {
            tails += 1;
        }
    }
    assert!(heads > 0);
    assert!(tails > 0);
}

#[test]
fn should_mock_steps_by_index() {
    let strategy = MockingStrategy::NthChar(3);
    assert!(strategy.should_mock(0, 'a'));
    assert!(!strategy.should_mock(1, 'a'));
    assert!(!strategy.should_mock(2, 'a'));
    assert!(strategy.should_mock(3, 'a'));
    assert!(strategy.should_mock(300, 'z'));
    assert!(MockingStrategy::NthChar(1).should_mock(17, '!'));
}

#[test]
fn should_mock_with_certain_chance() {
    let never = MockingStrategy::Random(Probability::new(0, 1));
    let always = MockingStrategy::Random(Probability::new(1, 1));
    for index in 0..20 {
        assert!(!never.should_mock(index, 'x'));
        assert!(always.should_mock(index, 'x'));
    }
}

#[test]
fn decisions_follow_the_step() {
    let decisions = MockingStrategy::NthChar(2).decisions("abcde");
    assert_eq!(vec![true, false, true, false, true], decisions);
    assert_eq!(Vec::<bool>::new(), MockingStrategy::NthChar(2).decisions(""));
    assert_eq!(2, MockingStrategy::Random(Probability::default()).decisions("\u{df}a").len());
}

#[test]
fn render_applies_given_decisions() {
    let none = Blacklist::new();
    assert_eq!("aBc", render("abc", &vec![false, true, false], &none));
    assert_eq!("ABC", render("abc", &vec![true, true, true], &none));
    assert_eq!("abc", render("abc", &vec![false, false, false], &none));
    let b = Blacklist::from_chars(&vec!['b']);
    assert_eq!("AbC", render("abc", &vec![true, true, true], &b));
}

#[test]
fn render_leaves_undecided_positions() {
    let none = Blacklist::new();
    assert_eq!("Abc", render("abc", &vec![true], &none));
    assert_eq!("abc", render("abc", &vec![], &none));
    assert_eq!("AB", render("ab", &vec![true, true, true, true], &none));
}

#[test]
fn select_reads_the_configured_kind() {
    let chance = Probability::new(1, 4);
    assert_eq!(MockingStrategy::NthChar(5), MockingStrategy::select("nth_char", 5, chance));
    assert_eq!(MockingStrategy::Random(chance), MockingStrategy::select("random", 5, chance));
    assert_eq!(MockingStrategy::NthChar(2), MockingStrategy::select("other", 5, chance));
    assert_eq!(MockingStrategy::NthChar(2), MockingStrategy::select("", 5, chance));
    assert_eq!(MockingStrategy::NthChar(0), MockingStrategy::select("nth_char", 0, chance));
}

#[test]
fn blacklist_counts_each_character_once() {
    let blacklist = Blacklist::from_chars(&vec!['a', 'b', 'a', 'c', 'b']);
    assert_eq!(3, blacklist.len());
    assert!(blacklist.contains('a'));
    assert!(blacklist.contains('b'));
    assert!(blacklist.contains('c'));
    assert!(!blacklist.contains('d'));
    assert!(!blacklist.contains('A'));
}

#[test]
fn empty_blacklist_holds_nothing() {
    let blacklist = Blacklist::new();
    assert_eq!(0, blacklist.len());
    assert!(!blacklist.contains('a'));
    assert_eq!(0, Blacklist::from_chars(&vec![]).len());
}
