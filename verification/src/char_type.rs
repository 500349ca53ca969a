//! Classifies graphemes as vowels or consonants.
//!
//! Classification always inspects the first codepoint of a grapheme's
//! canonical decomposition (NFD), so a precomposed letter with a diacritic and
//! its decomposed form classify the same.
//!
//! `Y` and its variants are classified as [ambiguous](CharType::Ambiguous).
//! Characters outside the Latin script are classified as
//! [non-latin](CharType::NonLatin), with the exception of a few punctuation
//! marks which are considered to be consonants. The empty string receives
//! [its own special classification](CharType::Empty).

use crate::latin;
use crate::unicode;
use crate::unicode::{is_latin_script, nfd_first};
use vstd::prelude::*;

verus! {

/// Vowel-or-consonant classification of a grapheme.
#[derive(Debug, Clone, Copy, Eq, Hash, PartialEq)]
pub enum CharType {
    /// Latin vowel, e.g. `A`, `æ`, `ő`, `ɛ`.
    Vowel,
    /// Latin consonant, e.g. `B`, `ç`, `ł`, `ʁ`.
    ///
    /// Also includes some punctuation which may appear inside words, e.g. `'`.
    Consonant,
    /// Latin letter which may be a vowel or a consonant, e.g. `Y`.
    Ambiguous,
    /// Non-Latin script, e.g. ` `, `.`, `1`, `的`.
    NonLatin,
    /// Empty string.
    Empty,
}

/// Classification of a single character: the ordered decision table over the
/// three tables of [`latin`], with the Latin script property as the fallback
/// that separates consonants from non-Latin material.
pub open spec fn classify_char(c: char) -> CharType {
    if latin::is_vowel_char(c) {
        CharType::Vowel
    } else if latin::is_ambiguous_char(c) {
        CharType::Ambiguous
    } else if latin::is_word_punctuation_char(c) {
        CharType::Consonant
    } else if is_latin_script(c) {
        CharType::Consonant
    } else {
        CharType::NonLatin
    }
}

/// The first NFD character of the grapheme at `index`, or `None` when the
/// index is out of range or the grapheme is the empty string.
pub open spec fn spec_nfd_first_at(graphemes: Seq<Seq<char>>, index: int) -> Option<char> {
    if 0 <= index < graphemes.len() {
        nfd_first(graphemes[index])
    } else {
        Option::None
    }
}

/// Classification of the grapheme at `index` of a grapheme sequence: `Empty`
/// when out of range or empty, otherwise the classification of the first
/// character of its canonical decomposition.
pub open spec fn spec_char_type_at(graphemes: Seq<Seq<char>>, index: int) -> CharType {
    match spec_nfd_first_at(graphemes, index) {
        Option::None => CharType::Empty,
        Option::Some(c) => classify_char(c),
    }
}

/// Classifies the grapheme at the specified index as a vowel or a consonant.
///
/// The slice is expected to contain single grapheme clusters, but any
/// string's first grapheme is classified, and the empty string gets
/// [`CharType::Empty`]. The classification is a pure function of the grapheme
/// sequence and the index: calling it twice on the same arguments yields the
/// same result.
pub fn get_char_type_at(graphemes: &[&str], index: usize) -> (t: CharType)
    ensures
        t == spec_char_type_at(graphemes.deep_view(), index as int),
{
    match get_first_nfd_char_of_grapheme_at(graphemes, index) {
        Option::None => CharType::Empty,
        Option::Some(first_char) => {
            if latin::is_vowel(first_char) {
                CharType::Vowel
            } else if latin::is_ambiguous_vowel(first_char) {
                CharType::Ambiguous
            } else if latin::is_word_punctuation(first_char) {
                CharType::Consonant
            } else if unicode::char_is_latin_script(first_char) {
                CharType::Consonant
            } else {
                CharType::NonLatin
            }
        },
    }
}

/// The first character of the canonical decomposition of the grapheme at
/// `index`, if the index is in range and the grapheme is non-empty.
fn get_first_nfd_char_of_grapheme_at(graphemes: &[&str], index: usize) -> (r: Option<char>)
    ensures
        r == spec_nfd_first_at(graphemes.deep_view(), index as int),
{
    if index < graphemes.len() {
        let grapheme: &str = graphemes[index];
        assert(grapheme@ == graphemes.deep_view()[index as int]);
        unicode::first_nfd_char(grapheme)
    } else {
        Option::None
    }
}

} // verus!
