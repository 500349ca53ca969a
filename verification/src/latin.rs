//! Tables of Latin-script characters used to classify vowels and consonants.
//!
//! The tables are immutable domain data: which codepoints count as vowels,
//! which as ambiguous letters, and which punctuation marks stay attached to a
//! word, is an English-orthography-biased editorial choice (Welsh `w`, for
//! instance, is deliberately counted as a consonant).
//!
//! All letters are listed in decomposed form, so `á` is covered by `a`;
//! modifier characters are not listed.

use vstd::prelude::*;

verus! {

/// Latin-script letters which are always vowels.
pub open spec fn is_vowel_char(c: char) -> bool {
    match c {
        // Basic Latin
        'A' | 'E' | 'I' | 'O' | 'U' |
        'a' | 'e' | 'i' | 'o' | 'u' |
        // Latin 1 supplement: symbols, then letters
        '\u{00AA}' | '\u{00BA}' |
        '\u{00C6}' | '\u{00D8}' | '\u{00E6}' | '\u{00F8}' | '\u{0131}' |
        '\u{0132}' | '\u{0133}' | '\u{0152}' | '\u{0153}' |
        // Extended B: non-european & historic, phonetic, Sencoten, misc
        '\u{018E}' | '\u{018F}' | '\u{0190}' | '\u{0196}' | '\u{0197}' |
        '\u{019F}' | '\u{01B1}' |
        '\u{01DD}' |
        '\u{023A}' |
        '\u{0222}' | '\u{0223}' | '\u{0244}' | '\u{0246}' | '\u{0247}' |
        // IPA
        '\u{0250}' | '\u{0251}' | '\u{0252}' |
        '\u{0258}' | '\u{0259}' | '\u{025A}' | '\u{025B}' | '\u{025C}' |
        '\u{025D}' | '\u{025E}' |
        '\u{0268}' | '\u{0269}' | '\u{026A}' |
        '\u{0275}' | '\u{0276}' | '\u{0277}' |
        '\u{0289}' | '\u{028A}' |
        // Phonetic letters
        '\u{1D00}' | '\u{1D01}' | '\u{1D02}' |
        '\u{1D07}' | '\u{1D08}' |
        '\u{1D09}' |
        '\u{1D0F}' | '\u{1D10}' | '\u{1D11}' | '\u{1D12}' | '\u{1D13}' |
        '\u{1D14}' | '\u{1D15}' | '\u{1D16}' | '\u{1D17}' |
        '\u{1D1C}' | '\u{1D1D}' | '\u{1D1E}' | '\u{1D6B}' |
        // Phonetic signs and retroflex hooks
        '\u{1D7B}' | '\u{1D7C}' | '\u{1D7E}' | '\u{1D7F}' |
        '\u{1D8F}' | '\u{1D90}' | '\u{1D92}' | '\u{1D93}' | '\u{1D94}' |
        '\u{1D95}' | '\u{1D96}' | '\u{1D97}' | '\u{1D99}' |
        // General extension, superscript, subscript
        '\u{1E9A}' |
        '\u{2071}' |
        '\u{2090}' | '\u{2091}' | '\u{2092}' | '\u{2094}' |
        // Extended C: orthographic addition, misc, UPA
        '\u{2C65}' |
        '\u{2C6D}' | '\u{2C6F}' | '\u{2C70}' |
        '\u{2C78}' | '\u{2C7A}' | '\u{2C7B}' |
        // Extended D: medievalist
        '\u{A732}' | '\u{A733}' | '\u{A734}' | '\u{A735}' | '\u{A736}' |
        '\u{A737}' | '\u{A738}' | '\u{A739}' | '\u{A73A}' | '\u{A73B}' |
        '\u{A73C}' | '\u{A73D}' |
        '\u{A74A}' | '\u{A74B}' | '\u{A74C}' | '\u{A74D}' | '\u{A74E}' |
        '\u{A74F}' |
        '\u{A76A}' | '\u{A76B}' | '\u{A76C}' | '\u{A76D}' | '\u{A778}' |
        // Extended D: Volapük, letters, West African, African, Mazahua,
        // Ugaritic & Egyptologic, Celtic, IPA, Roman
        '\u{A79A}' | '\u{A79B}' | '\u{A79C}' | '\u{A79D}' | '\u{A79E}' |
        '\u{A79F}' |
        '\u{A7AB}' |
        '\u{A7AE}' |
        '\u{A7B6}' | '\u{A7B7}' |
        '\u{A7B8}' | '\u{A7B9}' |
        '\u{A7BA}' | '\u{A7BB}' | '\u{A7BC}' | '\u{A7BD}' | '\u{A7BE}' |
        '\u{A7BF}' |
        '\u{A7F7}' |
        '\u{A7F9}' |
        '\u{A7FE}' |
        // Extended E: German dialects, Sakha, American
        '\u{AB30}' | '\u{AB31}' |
        '\u{AB32}' | '\u{AB33}' | '\u{AB34}' |
        '\u{AB3D}' | '\u{AB3E}' | '\u{AB3F}' | '\u{AB40}' | '\u{AB41}' |
        '\u{AB42}' | '\u{AB43}' | '\u{AB44}' |
        '\u{AB4E}' | '\u{AB4F}' | '\u{AB50}' | '\u{AB51}' | '\u{AB52}' |
        '\u{AB60}' | '\u{AB61}' | '\u{AB62}' | '\u{AB63}' |
        '\u{AB64}' |
        // Fullwidth
        '\u{FF21}' | '\u{FF25}' | '\u{FF29}' | '\u{FF2F}' | '\u{FF35}' |
        '\u{FF41}' | '\u{FF45}' | '\u{FF49}' | '\u{FF4F}' | '\u{FF55}' => true,
        _ => false,
    }
}

/// Latin-script letters which may be vowels, depending on context.
///
/// Currently, these are all variants of `y`.
pub open spec fn is_ambiguous_char(c: char) -> bool {
    match c {
        'Y' | 'y' |
        '\u{01B3}' | '\u{01B4}' | '\u{024E}' | '\u{024F}' | '\u{028E}' |
        '\u{028F}' | '\u{1EFE}' | '\u{1EFF}' | '\u{FF39}' | '\u{FF59}' |
        '\u{AB5A}' => true,
        _ => false,
    }
}

/// Punctuation to be treated as consonants, because it occurs inside words:
/// apostrophe variants and similar marks, e.g. in `M'lady`.
pub open spec fn is_word_punctuation_char(c: char) -> bool {
    match c {
        '\'' | '\u{2019}' | '\u{FF07}' | '\u{00B7}' | '\u{055F}' |
        '\u{05F4}' | '\u{2027}' => true,
        _ => false,
    }
}

/// Whether `c` is in the vowel table.
pub fn is_vowel(c: char) -> (r: bool)
    ensures
        r == is_vowel_char(c),
{
    match c {
        'A' | 'E' | 'I' | 'O' | 'U' |
        'a' | 'e' | 'i' | 'o' | 'u' |
        '\u{00AA}' | '\u{00BA}' |
        '\u{00C6}' | '\u{00D8}' | '\u{00E6}' | '\u{00F8}' | '\u{0131}' |
        '\u{0132}' | '\u{0133}' | '\u{0152}' | '\u{0153}' |
        '\u{018E}' | '\u{018F}' | '\u{0190}' | '\u{0196}' | '\u{0197}' |
        '\u{019F}' | '\u{01B1}' |
        '\u{01DD}' |
        '\u{023A}' |
        '\u{0222}' | '\u{0223}' | '\u{0244}' | '\u{0246}' | '\u{0247}' |
        '\u{0250}' | '\u{0251}' | '\u{0252}' |
        '\u{0258}' | '\u{0259}' | '\u{025A}' | '\u{025B}' | '\u{025C}' |
        '\u{025D}' | '\u{025E}' |
        '\u{0268}' | '\u{0269}' | '\u{026A}' |
        '\u{0275}' | '\u{0276}' | '\u{0277}' |
        '\u{0289}' | '\u{028A}' |
        '\u{1D00}' | '\u{1D01}' | '\u{1D02}' |
        '\u{1D07}' | '\u{1D08}' |
        '\u{1D09}' |
        '\u{1D0F}' | '\u{1D10}' | '\u{1D11}' | '\u{1D12}' | '\u{1D13}' |
        '\u{1D14}' | '\u{1D15}' | '\u{1D16}' | '\u{1D17}' |
        '\u{1D1C}' | '\u{1D1D}' | '\u{1D1E}' | '\u{1D6B}' |
        '\u{1D7B}' | '\u{1D7C}' | '\u{1D7E}' | '\u{1D7F}' |
        '\u{1D8F}' | '\u{1D90}' | '\u{1D92}' | '\u{1D93}' | '\u{1D94}' |
        '\u{1D95}' | '\u{1D96}' | '\u{1D97}' | '\u{1D99}' |
        '\u{1E9A}' |
        '\u{2071}' |
        '\u{2090}' | '\u{2091}' | '\u{2092}' | '\u{2094}' |
        '\u{2C65}' |
        '\u{2C6D}' | '\u{2C6F}' | '\u{2C70}' |
        '\u{2C78}' | '\u{2C7A}' | '\u{2C7B}' |
        '\u{A732}' | '\u{A733}' | '\u{A734}' | '\u{A735}' | '\u{A736}' |
        '\u{A737}' | '\u{A738}' | '\u{A739}' | '\u{A73A}' | '\u{A73B}' |
        '\u{A73C}' | '\u{A73D}' |
        '\u{A74A}' | '\u{A74B}' | '\u{A74C}' | '\u{A74D}' | '\u{A74E}' |
        '\u{A74F}' |
        '\u{A76A}' | '\u{A76B}' | '\u{A76C}' | '\u{A76D}' | '\u{A778}' |
        '\u{A79A}' | '\u{A79B}' | '\u{A79C}' | '\u{A79D}' | '\u{A79E}' |
        '\u{A79F}' |
        '\u{A7AB}' |
        '\u{A7AE}' |
        '\u{A7B6}' | '\u{A7B7}' |
        '\u{A7B8}' | '\u{A7B9}' |
        '\u{A7BA}' | '\u{A7BB}' | '\u{A7BC}' | '\u{A7BD}' | '\u{A7BE}' |
        '\u{A7BF}' |
        '\u{A7F7}' |
        '\u{A7F9}' |
        '\u{A7FE}' |
        '\u{AB30}' | '\u{AB31}' |
        '\u{AB32}' | '\u{AB33}' | '\u{AB34}' |
        '\u{AB3D}' | '\u{AB3E}' | '\u{AB3F}' | '\u{AB40}' | '\u{AB41}' |
        '\u{AB42}' | '\u{AB43}' | '\u{AB44}' |
        '\u{AB4E}' | '\u{AB4F}' | '\u{AB50}' | '\u{AB51}' | '\u{AB52}' |
        '\u{AB60}' | '\u{AB61}' | '\u{AB62}' | '\u{AB63}' |
        '\u{AB64}' |
        '\u{FF21}' | '\u{FF25}' | '\u{FF29}' | '\u{FF2F}' | '\u{FF35}' |
        '\u{FF41}' | '\u{FF45}' | '\u{FF49}' | '\u{FF4F}' | '\u{FF55}' => true,
        _ => false,
    }
}

/// Whether `c` is in the ambiguous-letter table.
pub fn is_ambiguous_vowel(c: char) -> (r: bool)
    ensures
        r == is_ambiguous_char(c),
{
    match c {
        'Y' | 'y' |
        '\u{01B3}' | '\u{01B4}' | '\u{024E}' | '\u{024F}' | '\u{028E}' |
        '\u{028F}' | '\u{1EFE}' | '\u{1EFF}' | '\u{FF39}' | '\u{FF59}' |
        '\u{AB5A}' => true,
        _ => false,
    }
}

/// Whether `c` is in the word-internal punctuation table.
pub fn is_word_punctuation(c: char) -> (r: bool)
    ensures
        r == is_word_punctuation_char(c),
{
    match c {
        '\'' | '\u{2019}' | '\u{FF07}' | '\u{00B7}' | '\u{055F}' |
        '\u{05F4}' | '\u{2027}' => true,
        _ => false,
    }
}

} // verus!
