//! The pig-latin rewrite engine.
//!
//! A text is segmented into word-boundary units; each unit whose first
//! character is Latin script is rewritten independently (its leading
//! consonant run moved to the end and a configured suffix appended, with the
//! original casing pattern restored), and every other unit passes through
//! unchanged. The units are concatenated in their original order.

use crate::case;
use crate::case::{spec_detect_case, spec_to_case, Case};
use crate::char_type;
use crate::char_type::{spec_char_type_at, CharType};
use crate::unicode;
use crate::unicode::{grapheme_clusters, is_latin_script, word_units};
use vstd::prelude::*;
use vstd::string::*;

verus! {

/// Whether the grapheme at `i` acts as a consonant for prefix purposes: a
/// consonant does, and an ambiguous letter does exactly when the next
/// grapheme is a vowel (so `yoga` is consonant-initial while `Ypres` is not).
pub open spec fn spec_has_consonant_at(gs: Seq<Seq<char>>, i: int) -> bool {
    match spec_char_type_at(gs, i) {
        CharType::Consonant => true,
        CharType::Ambiguous => spec_char_type_at(gs, i + 1) == CharType::Vowel,
        _ => false,
    }
}

/// The first position at or after `i` where the consonant run stops.
pub open spec fn consonant_prefix_len_from(gs: Seq<Seq<char>>, i: int) -> int
    decreases gs.len() - i
        when 0 <= i <= gs.len()
{
    if i < gs.len() && spec_has_consonant_at(gs, i) {
        consonant_prefix_len_from(gs, i + 1)
    } else {
        i
    }
}

/// The length of the leading consonant run of a grapheme sequence.
pub open spec fn consonant_prefix_len(gs: Seq<Seq<char>>) -> int {
    consonant_prefix_len_from(gs, 0)
}

/// A unit is skipped (passed through unchanged) when it is empty or its
/// first character's script is not Latin; whitespace, punctuation, digits
/// and non-Latin scripts are never rewritten.
pub open spec fn spec_should_skip(s: Seq<char>) -> bool {
    s.len() == 0 || !is_latin_script(s[0])
}

/// The uncased rewrite of one word: a vowel-initial word (consonant run of
/// length zero) keeps its order and takes the vowel suffix; otherwise the
/// leading consonant graphemes move to the end and the consonant suffix
/// follows them.
pub open spec fn spec_uncased_pig_latin(s: Seq<char>, cs: Seq<char>, vs: Seq<char>) -> Seq<char> {
    let gs = grapheme_clusters(s);
    let n = consonant_prefix_len(gs);
    if n == 0 {
        s + vs
    } else {
        gs.skip(n).flatten() + gs.take(n).flatten() + cs
    }
}

/// The rewrite of one unit: skipped units pass through; a rewritten unit is
/// the uncased rewrite recased to the case pattern detected on the original
/// unit.
pub open spec fn spec_word_pig_latin(s: Seq<char>, cs: Seq<char>, vs: Seq<char>) -> Seq<char> {
    if spec_should_skip(s) {
        s
    } else {
        spec_to_case(spec_uncased_pig_latin(s, cs, vs), spec_detect_case(s))
    }
}

/// Each unit rewritten independently, in order.
pub open spec fn spec_words_pig_latin(us: Seq<Seq<char>>, cs: Seq<char>, vs: Seq<char>) -> Seq<
    Seq<char>,
> {
    us.map_values(|u: Seq<char>| spec_word_pig_latin(u, cs, vs))
}

/// The whole transformation: the text's word-boundary units, each rewritten,
/// concatenated in original order.
pub open spec fn spec_pig_latin(s: Seq<char>, cs: Seq<char>, vs: Seq<char>) -> Seq<char> {
    spec_words_pig_latin(word_units(s), cs, vs).flatten()
}

/// Converter to pig latin.
///
/// Constructed with a suffix for consonant-initial words (`"ay"` by default,
/// e.g. `nix` → `ixnay`) and one for vowel-initial words (`"way"` by
/// default, e.g. `egg` → `eggway`). Empty suffixes are legal and simply
/// produce no suffix.
#[derive(Debug, Clone, Eq, Hash, Ord, PartialEq, PartialOrd)]
pub struct PigLatinTransformer {
    consonant_suffix: String,
    vowel_suffix: String,
}

impl Default for PigLatinTransformer {
    /// The conventional configuration: `"ay"` after moved consonants,
    /// `"way"` after vowel-initial words.
    fn default() -> (r: Self)
        ensures
            r.spec_consonant_suffix() == "ay"@,
            r.spec_vowel_suffix() == "way"@,
    {
        PigLatinTransformer::new("ay", "way")
    }
}

impl PigLatinTransformer {
    /// The configured suffix for consonant-initial words, as a sequence.
    pub closed spec fn spec_consonant_suffix(&self) -> Seq<char> {
        self.consonant_suffix@
    }

    /// The configured suffix for vowel-initial words, as a sequence.
    pub closed spec fn spec_vowel_suffix(&self) -> Seq<char> {
        self.vowel_suffix@
    }

    /// Builds a transformer with the two given suffixes.
    pub fn new(consonant_suffix: &str, vowel_suffix: &str) -> (r: Self)
        ensures
            r.spec_consonant_suffix() == consonant_suffix@,
            r.spec_vowel_suffix() == vowel_suffix@,
    {
        Self {
            consonant_suffix: consonant_suffix.to_owned(),
            vowel_suffix: vowel_suffix.to_owned(),
        }
    }

    /// Gets the suffix appended to words starting with a consonant.
    #[must_use]
    pub fn consonant_suffix(&self) -> (r: &String)
        ensures
            r@ == self.spec_consonant_suffix(),
    {
        &self.consonant_suffix
    }

    /// Gets the suffix appended to words starting with a vowel.
    #[must_use]
    pub fn vowel_suffix(&self) -> (r: &String)
        ensures
            r@ == self.spec_vowel_suffix(),
    {
        &self.vowel_suffix
    }

    /// Returns the pig latin translation of a string.
    ///
    /// The result is the concatenation, in original order, of every
    /// word-boundary unit's rewrite; a text all of whose units are skipped
    /// (empty or not Latin-initial) comes back unchanged.
    #[verifier::loop_isolation(false)]
    pub fn to_pig_latin(&self, s: &str) -> (r: String)
        ensures
            r@ == spec_pig_latin(s@, self.spec_consonant_suffix(), self.spec_vowel_suffix()),
            (forall|i: int|
                0 <= i < word_units(s@).len() ==> spec_should_skip(
                    #[trigger] word_units(s@)[i],
                )) ==> r@ == s@,
            s@.len() == 0 ==> r@ == s@,
    {
        let ghost cs = self.spec_consonant_suffix();
        let ghost vs = self.spec_vowel_suffix();
        let units = unicode::split_word_units(s);
        let ghost us = word_units(s@);
        let mut out = String::new();
        let mut i: usize = 0;
        while i < units.len()
            invariant
                0 <= i <= units.len(),
                out@ == spec_words_pig_latin(us.take(i as int), cs, vs).flatten(),
            decreases units.len() - i,
        {
            let unit: &str = units[i];
            let piece = self.word_to_case_matched_pig_latin(unit);
            proof {
                assert(unit@ == us[i as int]);
                let pre = spec_words_pig_latin(us.take(i as int), cs, vs);
                let step = spec_word_pig_latin(us[i as int], cs, vs);
                assert(spec_words_pig_latin(us.take(i + 1), cs, vs) =~= pre.push(step));
                pre.lemma_flatten_push(step);
            }
            out.append(piece.as_str());
            i = i + 1;
        }
        proof {
            assert(us.take(us.len() as int) =~= us);
            if s@.len() == 0 {
                // every unit of an empty text is empty, hence skipped
                assert forall|k: int| 0 <= k < us.len() implies spec_should_skip(
                    #[trigger] us[k],
                ) by {
                    us.lemma_flatten_length_ge_single_element_length(k);
                    us.lemma_flatten_and_flatten_alt_are_equivalent();
                }
            }
            if forall|k: int| 0 <= k < us.len() ==> spec_should_skip(#[trigger] us[k]) {
                assert(spec_words_pig_latin(us, cs, vs) =~= us);
            }
        }
        out
    }

    /// The rewrite of one unit, with the original unit's case pattern
    /// restored on the rewritten word; skipped units come back verbatim.
    fn word_to_case_matched_pig_latin(&self, s: &str) -> (r: String)
        ensures
            r@ == spec_word_pig_latin(s@, self.spec_consonant_suffix(), self.spec_vowel_suffix()),
    {
        if should_skip_word(s) {
            return s.to_owned();
        }
        let pig = self.word_to_uncased_pig_latin(s);
        case::to_case(pig, case::detect_case(s))
    }

    /// The uncased rewrite of one word: find the leading consonant run over
    /// the word's graphemes, then either append the vowel suffix (empty run)
    /// or rotate the run to the end and append the consonant suffix.
    #[verifier::loop_isolation(false)]
    fn word_to_uncased_pig_latin(&self, s: &str) -> (r: String)
        ensures
            r@ == spec_uncased_pig_latin(
                s@,
                self.spec_consonant_suffix(),
                self.spec_vowel_suffix(),
            ),
    {
        let graphemes = unicode::graphemes(s);
        let ghost gs = grapheme_clusters(s@);

        let mut prefix_length: usize = 0;
        while has_consonant_at(graphemes.as_slice(), prefix_length)
            invariant
                0 <= prefix_length <= gs.len(),
                consonant_prefix_len(gs) == consonant_prefix_len_from(gs, prefix_length as int),
            decreases gs.len() - prefix_length,
        {
            prefix_length = prefix_length + 1;
        }
        let ghost n = prefix_length as int;
        proof {
            assert(consonant_prefix_len(gs) == n);
        }

        if prefix_length == 0 {
            let mut r = s.to_owned();
            r.append(self.vowel_suffix.as_str());
            return r;
        }

        let mut out = String::new();
        let mut j: usize = prefix_length;
        while j < graphemes.len()
            invariant
                n <= j <= gs.len(),
                out@ == gs.subrange(n, j as int).flatten(),
            decreases graphemes.len() - j,
        {
            let piece: &str = graphemes[j];
            proof {
                assert(piece@ == gs[j as int]);
                assert(gs.subrange(n, j + 1) =~= gs.subrange(n, j as int).push(gs[j as int]));
                gs.subrange(n, j as int).lemma_flatten_push(gs[j as int]);
            }
            out.append(piece);
            j = j + 1;
        }
        proof {
            assert(gs.subrange(n, gs.len() as int) =~= gs.skip(n));
        }

        let mut k: usize = 0;
        while k < prefix_length
            invariant
                0 <= k <= n,
                out@ == gs.skip(n).flatten() + gs.subrange(0, k as int).flatten(),
            decreases prefix_length - k,
        {
            let piece: &str = graphemes[k];
            proof {
                assert(piece@ == gs[k as int]);
                assert(gs.subrange(0, k + 1) =~= gs.subrange(0, k as int).push(gs[k as int]));
                gs.subrange(0, k as int).lemma_flatten_push(gs[k as int]);
                assert((gs.skip(n).flatten() + gs.subrange(0, k as int).flatten()) + gs[k as int]
                    =~= gs.skip(n).flatten() + gs.subrange(0, k + 1).flatten());
            }
            out.append(piece);
            k = k + 1;
        }
        proof {
            assert(gs.subrange(0, n) =~= gs.take(n));
        }
        out.append(self.consonant_suffix.as_str());
        out
    }
}

proof fn lemma_consonant_prefix_len_from_bounds(gs: Seq<Seq<char>>, i: int)
    requires
        0 <= i <= gs.len(),
    ensures
        i <= consonant_prefix_len_from(gs, i) <= gs.len(),
    decreases gs.len() - i,
{
    if i < gs.len() && spec_has_consonant_at(gs, i) {
        lemma_consonant_prefix_len_from_bounds(gs, i + 1);
    }
}

/// The leading consonant run never extends past the end of the word.
pub proof fn lemma_consonant_prefix_len_bounds(gs: Seq<Seq<char>>)
    ensures
        0 <= consonant_prefix_len(gs) <= gs.len(),
{
    lemma_consonant_prefix_len_from_bounds(gs, 0);
}

/// Round-trip skip law: a unit that is empty or whose first character's
/// script is not Latin passes through the word rewrite unchanged, for every
/// configuration of suffixes.
pub proof fn lemma_skip_word_unchanged(s: Seq<char>, cs: Seq<char>, vs: Seq<char>)
    requires
        spec_should_skip(s),
    ensures
        spec_word_pig_latin(s, cs, vs) == s,
{
}

/// Suffix law: the uncased rewrite of a vowel-initial word (a word whose
/// leading consonant run is empty) is the word followed by the vowel suffix;
/// the uncased rewrite of a consonant-initial word ends with the consonant
/// suffix.
pub proof fn lemma_suffix_invariant(s: Seq<char>, cs: Seq<char>, vs: Seq<char>)
    ensures
        consonant_prefix_len(grapheme_clusters(s)) == 0 ==> spec_uncased_pig_latin(s, cs, vs) == s
            + vs && vs.is_suffix_of(spec_uncased_pig_latin(s, cs, vs)),
        consonant_prefix_len(grapheme_clusters(s)) != 0 ==> cs.is_suffix_of(
            spec_uncased_pig_latin(s, cs, vs),
        ),
{
    let gs = grapheme_clusters(s);
    let n = consonant_prefix_len(gs);
    let u = spec_uncased_pig_latin(s, cs, vs);
    lemma_consonant_prefix_len_bounds(gs);
    if n == 0 {
        assert(vs =~= u.subrange((u.len() - vs.len()) as int, u.len() as int));
    } else {
        assert(cs =~= u.subrange((u.len() - cs.len()) as int, u.len() as int));
    }
}

/// Suffix law at the word level: when a rewritten word's detected case is
/// `Mixed`, recasing leaves the uncased rewrite untouched, so the configured
/// suffix stands literally at the end of the final word.
pub proof fn lemma_word_suffix_mixed(s: Seq<char>, cs: Seq<char>, vs: Seq<char>)
    requires
        !spec_should_skip(s),
        spec_detect_case(s) == Case::Mixed,
    ensures
        consonant_prefix_len(grapheme_clusters(s)) == 0 ==> vs.is_suffix_of(
            spec_word_pig_latin(s, cs, vs),
        ),
        consonant_prefix_len(grapheme_clusters(s)) != 0 ==> cs.is_suffix_of(
            spec_word_pig_latin(s, cs, vs),
        ),
{
    lemma_suffix_invariant(s, cs, vs);
}

/// Whether a unit is left untouched: it is empty, or its first character's
/// script is not Latin.
fn should_skip_word(s: &str) -> (r: bool)
    ensures
        r == spec_should_skip(s@),
{
    if s.is_empty() {
        true
    } else {
        let first_char = s.get_char(0);
        !unicode::char_is_latin_script(first_char)
    }
}

/// Whether the grapheme at `index` acts as a consonant: the one-step
/// lookahead that resolves ambiguous letters against the following grapheme.
fn has_consonant_at(graphemes: &[&str], index: usize) -> (r: bool)
    ensures
        r == spec_has_consonant_at(graphemes.deep_view(), index as int),
{
    let len = graphemes.len();
    match char_type::get_char_type_at(graphemes, index) {
        CharType::Consonant => true,
        CharType::Ambiguous => {
            // an ambiguous classification puts `index` in range, so the
            // lookahead index cannot overflow
            assert(index < len);
            matches!(char_type::get_char_type_at(graphemes, index + 1), CharType::Vowel)
        },
        _ => false,
    }
}

} // verus!
