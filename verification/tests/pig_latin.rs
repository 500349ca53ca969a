use porcus::PigLatinTransformer;

#[test]
fn suffixes() {
    let transformer = PigLatinTransformer::new("C", "V");
    assert_eq!(transformer.consonant_suffix(), "C");
    assert_eq!(transformer.vowel_suffix(), "V");

    let transformer = PigLatinTransformer::default();
    assert_eq!(transformer.consonant_suffix(), "ay");
    assert_eq!(transformer.vowel_suffix(), "way");
}

fn assert_pig_latin(input: &str, expected: &str) {
    let transformer = PigLatinTransformer::default();
    assert_eq!(transformer.to_pig_latin(input), expected);
}

#[test]
fn single_word() {
    assert_pig_latin("nix", "ixnay");
    assert_pig_latin("scram", "amscray");
    assert_pig_latin("string", "ingstray");
    assert_pig_latin("joy", "oyjay");
    assert_pig_latin("oy", "oyway");
    assert_pig_latin("aid", "aidway");
    assert_pig_latin("hmm", "hmmay");
}

#[test]
fn y_as_consonant() {
    assert_pig_latin("yoga", "ogayay");
    assert_pig_latin("Yiddish", "Iddishyay");
}

#[test]
fn y_as_vowel() {
    assert_pig_latin("ytterbium", "ytterbiumway");
    assert_pig_latin("Ypres", "Ypresway");
    assert_pig_latin("Yvonne", "Yvonneway");
    assert_pig_latin("yyadzehe", "yyadzeheway");
    assert_pig_latin("yy", "yyway");
}

#[test]
fn diacritics() {
    assert_pig_latin("café", "afécay");
    assert_pig_latin("ça", "açay");
    assert_pig_latin("çà", "àçay");
    assert_pig_latin("âge", "âgeway");
    assert_pig_latin("Éole", "Éoleway");
    assert_pig_latin("Česko", "Eskočay");
    assert_pig_latin("článek", "ánekčlay");
    assert_pig_latin("Słowacją", "Owacjąsłay");
    assert_pig_latin("ščepec", "epecščay");
}

#[test]
fn latin_supplement() {
    assert_pig_latin("œuf", "œufway");
    assert_pig_latin("sœur", "œursay");
    assert_pig_latin("ﬀion", "ionﬀay");
    assert_pig_latin("ʁɛv", "ɛvʁay");
}

#[test]
fn not_latin() {
    assert_pig_latin("", "");
    assert_pig_latin("दिखना", "दिखना");
    assert_pig_latin("twerkना", "erkनाtway");
    assert_pig_latin("αGo", "αGo");
    assert_pig_latin("TV9मराठी", "9मराठीTVAY");
}

#[test]
fn case() {
    assert_pig_latin("hello", "ellohay");
    assert_pig_latin("Hello", "Ellohay");
    assert_pig_latin("HELLO", "ELLOHAY");
    assert_pig_latin("heLLo", "eLLohay");
    assert_pig_latin("iPhone", "iPhoneway");
    assert_pig_latin("EGG", "EGGWAY");
    assert_pig_latin("I", "Iway");
}

#[test]
fn pig_latin_sentence() {
    assert_pig_latin("hello world", "ellohay orldway");
    assert_pig_latin("hello-hi", "ellohay-ihay");
    assert_pig_latin("Yes (no)", "Esyay (onay)");
    assert_pig_latin("Hello, ADORABLE world!", "Ellohay, ADORABLEWAY orldway!");
    assert_pig_latin("A T-shirt, I see.", "Away Tay-irtshay, Iway eesay.");
    assert_pig_latin("🦀 My name is मनीष. 📎", "🦀 Ymay amenay isway मनीष. 📎");
    assert_pig_latin("L'eau d'orange", "Eaul'ay oranged'ay");
    assert_pig_latin("P'sst ! Par ici !", "P'sstay ! Arpay iciway !");
    assert_pig_latin("Simon Example z״l", "Imonsay Exampleway z״lay");
    assert_pig_latin("Ploni Almoni a״h", "Oniplay Almoniway a״hway");
    assert_pig_latin("The Rebbe z״ya", "Ethay Ebberay az״yay");
}

#[test]
fn custom_suffixes() {
    let transformer = PigLatinTransformer::new("yay", "-hay");
    let result = transformer.to_pig_latin("Hello, egg!");

    assert_eq!(result, "Ellohyay, egg-hay!");
}
