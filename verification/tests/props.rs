//! Behavioural checks beyond the unit tests: purity of classification,
//! the skip round-trip, the suffix laws on concrete words, and
//! case-pattern preservation on concrete words.

use porcus::case::{detect_case, Case};
use porcus::char_type::{get_char_type_at, CharType};
use porcus::PigLatinTransformer;

#[test]
fn classification_is_pure() {
    let graphemes = &vec!["B", "a", "y", ".", "", "ç"];
    for index in 0..graphemes.len() + 2 {
        let first = get_char_type_at(graphemes, index);
        let second = get_char_type_at(graphemes, index);
        assert_eq!(first, second);
    }
}

#[test]
fn skip_round_trip_for_all_configurations() {
    let configurations = vec![
        PigLatinTransformer::default(),
        PigLatinTransformer::new("yay", "-hay"),
        PigLatinTransformer::new("", ""),
        PigLatinTransformer::new("XX", "YY"),
    ];
    for transformer in &configurations {
        for unit in ["", " ", "42", "दिखना", "中文", "...", "«»"] {
            assert_eq!(transformer.to_pig_latin(unit), unit);
        }
    }
}

#[test]
fn suffix_ends_rewritten_words() {
    let transformer = PigLatinTransformer::new("kay", "vay");
    // vowel-initial words end with the vowel suffix
    for word in ["egg", "aid", "oy", "ytterbium", "yy"] {
        let result = transformer.to_pig_latin(word);
        assert!(result.ends_with("vay"), "{result}");
        assert_eq!(result, format!("{word}vay"));
    }
    // consonant-initial words end with the consonant suffix
    for word in ["nix", "string", "hmm", "yoga"] {
        let result = transformer.to_pig_latin(word);
        assert!(result.ends_with("kay"), "{result}");
    }
}

#[test]
fn empty_suffixes_only_rotate() {
    let transformer = PigLatinTransformer::new("", "");
    assert_eq!(transformer.to_pig_latin("nix"), "ixn");
    assert_eq!(transformer.to_pig_latin("egg"), "egg");
    assert_eq!(transformer.to_pig_latin("hello world"), "elloh orldw");
}

#[test]
fn case_pattern_is_preserved() {
    let transformer = PigLatinTransformer::default();
    for word in ["hello", "Hello", "HELLO", "egg", "Egg", "EGG", "I"] {
        let rewritten = transformer.to_pig_latin(word);
        assert_eq!(detect_case(word), detect_case(&rewritten), "{word} -> {rewritten}");
    }
    // a mixed-case word passes its letters through with their cases untouched
    assert_eq!(transformer.to_pig_latin("heLLo"), "eLLohay");
    assert_eq!(detect_case("heLLo"), Case::Mixed);
}

#[test]
fn classification_reads_first_nfd_codepoint() {
    // precomposed and decomposed forms classify alike
    let graphemes = &vec!["ç", "c\u{0327}", "é", "e\u{0301}"];
    assert_eq!(get_char_type_at(graphemes, 0), CharType::Consonant);
    assert_eq!(get_char_type_at(graphemes, 1), CharType::Consonant);
    assert_eq!(get_char_type_at(graphemes, 2), CharType::Vowel);
    assert_eq!(get_char_type_at(graphemes, 3), CharType::Vowel);
}

#[test]
fn whole_consonant_word_keeps_order() {
    // a word of consonants only: empty moved-suffix part, word + suffix
    let transformer = PigLatinTransformer::default();
    assert_eq!(transformer.to_pig_latin("hmm"), "hmmay");
    assert_eq!(transformer.to_pig_latin("psst"), "psstay");
}
