use porcus::case::{detect_case, to_case, Case};

#[test]
fn lower() {
    assert_eq!(detect_case(""), Case::Lower);
    assert_eq!(detect_case("test"), Case::Lower);
    assert_eq!(detect_case("çà"), Case::Lower);
    assert_eq!(detect_case("测试"), Case::Lower);
    assert_eq!(detect_case("测试test"), Case::Lower);
    assert_eq!(detect_case("test测试"), Case::Lower);
}

#[test]
fn upper() {
    assert_eq!(detect_case("TEST"), Case::Upper);
    assert_eq!(detect_case("ÇÀ"), Case::Upper);
    assert_eq!(detect_case("TEST测试"), Case::Upper);
    assert_eq!(detect_case("测试TEST"), Case::Upper);
}

#[test]
fn sentence() {
    assert_eq!(detect_case("Test"), Case::Sentence);
    assert_eq!(detect_case("Çà"), Case::Sentence);
    assert_eq!(detect_case("X测试test"), Case::Sentence);
    assert_eq!(detect_case("I"), Case::Sentence);
}

#[test]
fn mixed() {
    assert_eq!(detect_case("TESt"), Case::Mixed);
    assert_eq!(detect_case("tEST"), Case::Mixed);
    assert_eq!(detect_case("çÀ"), Case::Mixed);
    assert_eq!(detect_case("x测试Test"), Case::Mixed);
}

fn assert_case_transform(input: &str, case: Case, expected: &str) {
    let result = to_case(String::from(input), case);
    assert_eq!(result, expected);
}

#[test]
fn case_lower() {
    assert_case_transform("", Case::Lower, "");
    assert_case_transform("tEsT", Case::Lower, "test");
    assert_case_transform("À", Case::Lower, "à");
    assert_case_transform("测试", Case::Lower, "测试");
}

#[test]
fn case_upper() {
    assert_case_transform("", Case::Upper, "");
    assert_case_transform("tEsT", Case::Upper, "TEST");
    assert_case_transform("à", Case::Upper, "À");
    assert_case_transform("测试", Case::Upper, "测试");
}

#[test]
fn case_sentence() {
    assert_case_transform("", Case::Sentence, "");
    assert_case_transform("tEsT", Case::Sentence, "Test");
    assert_case_transform("âgé", Case::Sentence, "Âgé");
    assert_case_transform("测试", Case::Sentence, "测试");
}

#[test]
fn case_mixed() {
    assert_case_transform("", Case::Mixed, "");
    assert_case_transform("tEsT", Case::Mixed, "tEsT");
    assert_case_transform("âgé", Case::Mixed, "âgé");
    assert_case_transform("测试", Case::Mixed, "测试");
}
