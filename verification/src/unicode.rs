//! Unicode primitives the library consumes but does not reimplement:
//! word-boundary and grapheme segmentation, canonical decomposition, script
//! lookup, and case predicates and folding.
//!
//! Each primitive is a pure function of its character-sequence argument, so
//! its result is given an uninterpreted spec-level name; the wrappers below
//! relate the executable calls to those names, together with the few facts the
//! crates' documentation states (segmentation concatenates back to the input,
//! canonical decomposition of a string is empty exactly when the string is).

use unicode_normalization::UnicodeNormalization;
use unicode_script::UnicodeScript;
use unicode_segmentation::UnicodeSegmentation;
use vstd::prelude::*;

verus! {

/// The units that Unicode word-boundary segmentation (UAX #29) cuts a string
/// into, in order: maximal runs of word characters, whitespace or punctuation.
pub uninterp spec fn word_units(s: Seq<char>) -> Seq<Seq<char>>;

/// The grapheme clusters (user-perceived characters, UAX #29) of a string, in
/// order.
pub uninterp spec fn grapheme_clusters(s: Seq<char>) -> Seq<Seq<char>>;

/// The first character of a string's canonical decomposition (NFD), if any.
pub uninterp spec fn nfd_first(s: Seq<char>) -> Option<char>;

/// Whether a character's Unicode script property (UAX #24) is Latin.
pub uninterp spec fn is_latin_script(c: char) -> bool;

/// A string folded to lowercase, as `str::to_lowercase` folds it.
pub uninterp spec fn lower_of(s: Seq<char>) -> Seq<char>;

/// A string folded to uppercase, as `str::to_uppercase` folds it.
pub uninterp spec fn upper_of(s: Seq<char>) -> Seq<char>;

/// Whether a character has the Unicode property Uppercase.
pub uninterp spec fn is_upper_char(c: char) -> bool;

/// Whether a character has the Unicode property Lowercase.
pub uninterp spec fn is_lower_char(c: char) -> bool;

/// Relies on unicode_segmentation's `split_word_bounds`: the substrings
/// between UAX #29 word boundaries, whose concatenation is the original
/// string.
#[verifier::external_body]
pub(crate) fn split_word_units<'a>(s: &'a str) -> (r: Vec<&'a str>)
    ensures
        r.deep_view() == word_units(s@),
        r.deep_view().flatten() == s@,
{
    s.split_word_bounds().collect()
}

/// Relies on unicode_segmentation's `graphemes` (extended grapheme clusters):
/// the clusters are non-empty substrings whose concatenation is the original
/// string.
#[verifier::external_body]
pub(crate) fn graphemes<'a>(s: &'a str) -> (r: Vec<&'a str>)
    ensures
        r.deep_view() == grapheme_clusters(s@),
        r.deep_view().flatten() == s@,
        forall|i: int| 0 <= i < r.deep_view().len() ==> r.deep_view()[i].len() > 0,
{
    s.graphemes(true).collect()
}

/// Relies on unicode_normalization's `nfd`: canonical decomposition maps each
/// character to one or more characters, so the decomposition of a string is
/// empty exactly when the string is.
#[verifier::external_body]
pub(crate) fn first_nfd_char(s: &str) -> (r: Option<char>)
    ensures
        r == nfd_first(s@),
        (r is None) <==> s@.len() == 0,
{
    s.nfd().next()
}

/// Relies on unicode_script's `script` and `full_name`: the script property
/// of a codepoint, compared against the full script name `Latin`.
#[verifier::external_body]
pub(crate) fn char_is_latin_script(c: char) -> (r: bool)
    ensures
        r == is_latin_script(c),
{
    c.script().full_name() == "Latin"
}

/// Relies on `str::to_lowercase`: the lowercase mapping depends on the
/// characters alone, and an empty string stays empty.
#[verifier::external_body]
pub(crate) fn to_lowercase(s: &str) -> (r: String)
    ensures
        r@ == lower_of(s@),
        s@.len() == 0 ==> r@.len() == 0,
{
    s.to_lowercase()
}

/// Relies on `str::to_uppercase`: the uppercase mapping depends on the
/// characters alone, and an empty string stays empty.
#[verifier::external_body]
pub(crate) fn to_uppercase(s: &str) -> (r: String)
    ensures
        r@ == upper_of(s@),
        s@.len() == 0 ==> r@.len() == 0,
{
    s.to_uppercase()
}

/// Relies on `char::is_uppercase`: whether the character has the Unicode
/// property Uppercase.
#[verifier::external_body]
pub(crate) fn char_is_uppercase(c: char) -> (r: bool)
    ensures
        r == is_upper_char(c),
{
    c.is_uppercase()
}

/// Relies on `char::is_lowercase`: whether the character has the Unicode
/// property Lowercase.
#[verifier::external_body]
pub(crate) fn char_is_lowercase(c: char) -> (r: bool)
    ensures
        r == is_lower_char(c),
{
    c.is_lowercase()
}

} // verus!
