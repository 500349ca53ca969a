//! Case detection and mapping.
//!
//! A word's case pattern is one of four shapes; uncased characters (digits,
//! most non-Latin scripts) satisfy both the "is lower" and "is upper"
//! predicates, so they never force a [`Case::Mixed`] result by themselves.

use crate::unicode;
use crate::unicode::{grapheme_clusters, is_lower_char, is_upper_char, lower_of, upper_of};
use vstd::prelude::*;
use vstd::string::*;

verus! {

/// Case of a word.
#[derive(Debug, Clone, Copy, Eq, Hash, PartialEq)]
pub enum Case {
    /// All characters are lowercase or uncased.
    Lower,
    /// All characters are uppercase or uncased.
    Upper,
    /// The first character is uppercase. All others are lowercase or uncased.
    Sentence,
    /// No consistent case pattern.
    Mixed,
}

impl Default for Case {
    /// The fallback when no clean pattern is found.
    fn default() -> (r: Self)
        ensures
            r == Case::Mixed,
    {
        Case::Mixed
    }
}

/// The case pattern of a word: an ordered decision table over the case of the
/// first character and of the rest. An empty word is `Lower`; a single
/// uppercase letter satisfies both "rest is lower" and "rest is upper"
/// vacuously, and the rule order deliberately resolves it to `Sentence`.
pub open spec fn spec_detect_case(s: Seq<char>) -> Case {
    if s.len() == 0 {
        Case::Lower
    } else {
        let first_is_lower = !is_upper_char(s[0]);
        let first_is_upper = !is_lower_char(s[0]);
        let rest_is_upper = forall|j: int| 1 <= j < s.len() ==> !is_lower_char(s[j]);
        let rest_is_lower = forall|j: int| 1 <= j < s.len() ==> !is_upper_char(s[j]);
        if first_is_lower && rest_is_lower {
            Case::Lower
        } else if first_is_upper && rest_is_lower {
            Case::Sentence
        } else if first_is_upper && rest_is_upper {
            Case::Upper
        } else {
            Case::Mixed
        }
    }
}

/// A word recased to sentence case: its first grapheme cluster uppercased,
/// everything after it lowercased. Empty input gives empty output.
pub open spec fn spec_sentence_case(s: Seq<char>) -> Seq<char> {
    let gs = grapheme_clusters(s);
    if gs.len() == 0 {
        Seq::empty()
    } else {
        upper_of(gs[0]) + lower_of(gs.drop_first().flatten())
    }
}

/// A word recased to the given case pattern; `Mixed` leaves it unchanged.
pub open spec fn spec_to_case(s: Seq<char>, case: Case) -> Seq<char> {
    match case {
        Case::Lower => lower_of(s),
        Case::Upper => upper_of(s),
        Case::Sentence => spec_sentence_case(s),
        Case::Mixed => s,
    }
}

/// Detects the case of a word.
///
/// Uncased characters do not affect the detection, an all-uncased word
/// (including the empty word) is considered lowercase, and a single-letter
/// uppercase word is considered sentence-case rather than uppercase.
pub fn detect_case(s: &str) -> (c: Case)
    ensures
        c == spec_detect_case(s@),
{
    let n = s.unicode_len();
    if n == 0 {
        return Case::Lower;
    }
    let first_char = s.get_char(0);
    let first_is_lower = !unicode::char_is_uppercase(first_char);
    let first_is_upper = !unicode::char_is_lowercase(first_char);
    let mut rest_is_upper = true;
    let mut rest_is_lower = true;
    let mut i: usize = 1;
    while i < n
        invariant
            1 <= i <= n,
            n == s@.len(),
            rest_is_upper <==> (forall|j: int| 1 <= j < i ==> !is_lower_char(s@[j])),
            rest_is_lower <==> (forall|j: int| 1 <= j < i ==> !is_upper_char(s@[j])),
        decreases n - i,
    {
        let ch = s.get_char(i);
        if unicode::char_is_lowercase(ch) {
            rest_is_upper = false;
        }
        if unicode::char_is_uppercase(ch) {
            rest_is_lower = false;
        }
        i = i + 1;
    }
    if first_is_lower && rest_is_lower {
        Case::Lower
    } else if first_is_upper && rest_is_lower {
        Case::Sentence
    } else if first_is_upper && rest_is_upper {
        Case::Upper
    } else {
        Case::Mixed
    }
}

/// Returns the equivalent of a string as the specified case.
///
/// Conversion to mixed case leaves the string unchanged.
pub fn to_case(s: String, case: Case) -> (r: String)
    ensures
        r@ == spec_to_case(s@, case),
{
    match case {
        Case::Lower => unicode::to_lowercase(s.as_str()),
        Case::Upper => unicode::to_uppercase(s.as_str()),
        Case::Sentence => to_sentence_case(s.as_str()),
        Case::Mixed => s,
    }
}

/// Uppercases the first grapheme cluster and lowercases the rest, so that a
/// base letter with combining diacritics is recased as one unit.
fn to_sentence_case(s: &str) -> (r: String)
    ensures
        r@ == spec_sentence_case(s@),
{
    let g = unicode::graphemes(s);
    let ghost gs = grapheme_clusters(s@);
    if g.len() == 0 {
        return String::new();
    }
    let first: &str = g[0];
    assert(first@ == gs[0]);
    let mut rest = String::new();
    let mut j: usize = 1;
    while j < g.len()
        invariant
            1 <= j <= g.len(),
            g.deep_view() == gs,
            rest@ == gs.subrange(1, j as int).flatten(),
        decreases g.len() - j,
    {
        let piece: &str = g[j];
        proof {
            assert(piece@ == gs[j as int]);
            assert(gs.subrange(1, j + 1) =~= gs.subrange(1, j as int).push(gs[j as int]));
            gs.subrange(1, j as int).lemma_flatten_push(gs[j as int]);
        }
        rest.append(piece);
        j = j + 1;
    }
    proof {
        assert(gs.subrange(1, gs.len() as int) =~= gs.drop_first());
    }
    let mut out = unicode::to_uppercase(first);
    let lowered = unicode::to_lowercase(rest.as_str());
    out.append(lowered.as_str());
    out
}

} // verus!
