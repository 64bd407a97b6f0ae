use kotoba::scoring::levenshtein::{distance, katakana_to_hiragana, normalize_for_compare, similarity_parts};

/// The normalised similarity in [0.0, 1.0] built from the verified parts.
fn normalized_similarity(target: &str, spoken: &str) -> f64 {
    let (dist, max_len) = similarity_parts(target, spoken);
    if max_len == 0 {
        return 1.0;
    }
    1.0 - (dist as f64 / max_len as f64)
}

#[test]
fn identical_strings_score_one() {
    assert!((normalized_similarity("hello", "hello") - 1.0).abs() < f64::EPSILON);
}

#[test]
fn case_insensitive_match() {
    assert!((normalized_similarity("Hello", "hello") - 1.0).abs() < f64::EPSILON);
}

#[test]
fn single_substitution() {
    let score = normalized_similarity("cat", "bat");
    assert!((score - 0.666666).abs() < 0.01);
}

#[test]
fn empty_spoken_is_zero() {
    assert!((normalized_similarity("hello", "") - 0.0).abs() < f64::EPSILON);
}

#[test]
fn distance_known_values() {
    assert_eq!(distance("", "abc"), 3);
    assert_eq!(distance("kitten", "sitting"), 3);
}

#[test]
fn japanese_punctuation_stripped_perfect_match() {
    assert!(
        (normalized_similarity("ありがとう", "ありがとう！") - 1.0).abs() < f64::EPSILON,
        "trailing ! should be stripped before comparison"
    );
    assert!(
        (normalized_similarity("ありがとう", "ありがとう。") - 1.0).abs() < f64::EPSILON,
        "trailing 。 should be stripped before comparison"
    );
}

#[test]
fn western_punctuation_stripped_perfect_match() {
    assert!(
        (normalized_similarity("hello", "hello!") - 1.0).abs() < f64::EPSILON,
        "trailing Western ! should be stripped"
    );
    assert!(
        (normalized_similarity("water", "water.") - 1.0).abs() < f64::EPSILON,
        "trailing period should be stripped"
    );
}

#[test]
fn katakana_to_hiragana_perfect_match() {
    assert!(
        (normalized_similarity("きっぷ", "キップ") - 1.0).abs() < f64::EPSILON,
        "katakana and hiragana should match perfectly"
    );
    assert!(
        (normalized_similarity("ありがとう", "アリガトウ") - 1.0).abs() < f64::EPSILON,
        "katakana and hiragana should match perfectly"
    );
}

#[test]
fn distance_counts_characters_not_bytes() {
    assert_eq!(distance("ありがとう", "ありがと"), 1);
    assert_eq!(distance("abc", ""), 3);
    assert_eq!(distance("flaw", "lawn"), 2);
    assert_eq!(distance("same", "same"), 0);
}

#[test]
fn distance_is_symmetric_on_examples() {
    assert_eq!(distance("kitten", "sitting"), distance("sitting", "kitten"));
}

#[test]
fn normalization_folds_and_strips() {
    assert_eq!(normalize_for_compare("  キップ！ "), "きっぷ");
    assert_eq!(normalize_for_compare("Don't-Stop."), "dontstop");
    assert_eq!(katakana_to_hiragana('ア'), 'あ');
    assert_eq!(katakana_to_hiragana('ー'), 'ー');
    assert_eq!(katakana_to_hiragana('a'), 'a');
}

#[test]
fn similarity_parts_exact() {
    assert_eq!(similarity_parts("cat", "bat"), (1, 3));
    assert_eq!(similarity_parts("", "  "), (0, 0));
    assert_eq!(similarity_parts("hello", ""), (5, 5));
}

#[test]
fn distance_triangle_on_examples() {
    let words = ["kitten", "sitting", "mitten", "", "ありがとう", "ありがと"];
    for a in words {
        for b in words {
            for c in words {
                assert!(distance(a, c) <= distance(a, b) + distance(b, c));
            }
        }
    }
    assert_eq!(distance("kitten", "mitten") + distance("mitten", "sitting"), 4);
    assert_eq!(distance("kitten", "sitting"), 3);
}

#[test]
fn appended_punctuation_and_script_do_not_change_similarity() {
    assert_eq!(similarity_parts("ありがとう", "ありがとう！"), similarity_parts("ありがとう", "ありがとう"));
    assert_eq!(similarity_parts("ありがとう", "ありがとう。。"), (0, 5));
    assert_eq!(similarity_parts("ありがとう", "アリガトウ"), (0, 5));
    assert_eq!(similarity_parts("ねこ", "ネコ?"), (0, 2));
}

#[test]
fn similarity_is_symmetric() {
    assert_eq!(similarity_parts("kitten", "sitting"), similarity_parts("sitting", "kitten"));
    assert_eq!(similarity_parts("ありがとう", "ありがと"), similarity_parts("ありがと", "ありがとう"));
}
