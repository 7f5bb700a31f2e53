//! The characters that are never raised to upper case.

use vstd::prelude::*;

verus! {

/// A set of characters, kept in the order in which they were first given.
pub struct Blacklist {
    chars: Vec<char>,
}

impl View for Blacklist {
    type V = Set<char>;

    closed spec fn view(&self) -> Set<char> {
        self.chars@.to_set()
    }
}

impl Blacklist {
    /// No character is kept twice.
    #[verifier::type_invariant]
    spec fn wf(self) -> bool {
        self.chars@.no_duplicates()
    }

    /// The empty set.
    pub fn new() -> (blacklist: Blacklist)
        ensures
            blacklist@ == Set::<char>::empty(),
    {
        let blacklist = Blacklist { chars: Vec::new() };
        assert(blacklist.chars@.to_set() =~= Set::<char>::empty());
        blacklist
    }

    /// The set of the characters of `chars`; repetitions count once.
    pub fn from_chars(chars: &Vec<char>) -> (blacklist: Blacklist)
        ensures
            blacklist@ == chars@.to_set(),
    {
        let mut kept: Vec<char> = Vec::new();
        let mut i: usize = 0;
        while i < chars.len()
            invariant
                i <= chars.len(),
                kept@.no_duplicates(),
                kept@.to_set() == chars@.take(i as int).to_set(),
            decreases chars.len() - i,
        {
            let c = chars[i];
            proof {
                let seen = chars@.take(i as int);
                assert(chars@.take(i + 1) == seen.push(c));
                seen.lemma_push_to_set_commute(c);
                kept@.lemma_push_to_set_commute(c);
            }
            if !holds(&kept, c) {
                kept.push(c);
            }
            assert(kept@.to_set() =~= chars@.take(i + 1).to_set());
            i = i + 1;
        }
        assert(chars@.take(i as int) == chars@);
        Blacklist { chars: kept }
    }

    /// Whether `c` is in the set.
    pub fn contains(&self, c: char) -> (found: bool)
        ensures
            found == self@.contains(c),
    {
        holds(&self.chars, c)
    }

    /// The number of characters in the set.
    pub fn len(&self) -> (len: usize)
        ensures
            len == self@.len(),
    {
        proof {
            use_type_invariant(self);
            self.chars@.unique_seq_to_set();
        }
        self.chars.len()
    }
}

/// Whether `c` occurs in `chars`.
fn holds(chars: &Vec<char>, c: char) -> (found: bool)
    ensures
        found == chars@.to_set().contains(c),
{
    let mut i: usize = 0;
    while i < chars.len()
        invariant
            i <= chars.len(),
            forall|j: int| 0 <= j < i ==> chars@[j] != c,
        decreases chars.len() - i,
    {
        if chars[i] == c {
            return true;
        }
        i = i + 1;
    }
    false
}

} // verus!
