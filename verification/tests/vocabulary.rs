use ish::i64_fuzzy_eq;
use ish::ish;
use ish::string_fuzzy_eq;

#[test]
fn test_true_vocabulary_words() {
    for word in ["true", "yeah", "yup", "yes", "on", "👍", "yes way", "go for it"] {
        assert!(true - ish == word, "expected true-ish to match {:?}", word);
        assert!(false - ish != word, "expected false-ish not to match {:?}", word);
    }
}

#[test]
fn test_false_vocabulary_words() {
    for word in [
        "false", "untrue", "nope", "off", "nah", "naw", "nut", "👎", "no", "no way", "norway",
    ] {
        assert!(false - ish == word, "expected false-ish to match {:?}", word);
        assert!(true - ish != word, "expected true-ish not to match {:?}", word);
    }
}

#[test]
fn test_unrecognized_words_match_neither() {
    for word in ["", " ", "banana", "truee", "yess", "penguin", "nopeee", "ferret", "2"] {
        assert!(true - ish != word, "expected true-ish not to match {:?}", word);
        assert!(false - ish != word, "expected false-ish not to match {:?}", word);
    }
}

#[test]
fn test_case_insensitive_matching() {
    assert!(true - ish == "TrUe");
    assert!(true - ish == "YEAH");
    assert!(true - ish == "Yes Way");
    assert!(false - ish == "Norway");
    assert!(false - ish == "faLSE");
    assert!(false - ish == "NO WAY");
}

#[test]
fn test_surrounding_whitespace_ignored() {
    assert!(true - ish == " true");
    assert!(true - ish == "true ");
    assert!(true - ish == "\tYES\n");
    assert!(false - ish == "  no  ");
    assert!(false - ish == " Norway\r\n");
    // Whitespace inside a word is not surrounding whitespace.
    assert!(true - ish != "tr ue");
    assert!(false - ish != "no rway");
}

#[test]
fn test_string_fuzzy_eq_function() {
    assert!(string_fuzzy_eq(true, "TRUE"));
    assert!(!string_fuzzy_eq(true, "FALSE"));
    assert!(string_fuzzy_eq(false, "FALSE"));
    assert!(!string_fuzzy_eq(false, "TRUE"));
    assert!(!string_fuzzy_eq(true, "ostrich"));
    assert!(!string_fuzzy_eq(false, "ostrich"));
}

#[test]
fn test_i64_fuzzy_eq_function() {
    assert!(i64_fuzzy_eq(true, 1));
    assert!(!i64_fuzzy_eq(true, 0));
    assert!(!i64_fuzzy_eq(true, 2));
    assert!(!i64_fuzzy_eq(true, -1));
    assert!(!i64_fuzzy_eq(false, 1));
    assert!(i64_fuzzy_eq(false, 0));
    assert!(i64_fuzzy_eq(false, 2));
    assert!(i64_fuzzy_eq(false, -1));
    assert!(i64_fuzzy_eq(false, i64::MIN));
    assert!(i64_fuzzy_eq(false, i64::MAX));
}
