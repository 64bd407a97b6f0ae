use kotoba::scoring::phonemic::{distance, similarity_parts};

fn to_vec(slice: &[&str]) -> Vec<String> {
    slice.iter().map(|&s| s.to_string()).collect()
}

/// The normalised phoneme similarity in [0.0, 1.0] built from the verified
/// parts.
fn normalized_similarity(a: &[String], b: &[String]) -> f64 {
    let (dist, max_len) = similarity_parts(a, b);
    if max_len == 0 {
        return 1.0;
    }
    1.0 - (dist as f64 / max_len as f64)
}

#[test]
fn test_identical_phonemes() {
    let a = to_vec(&["h", "ə", "l", "oʊ"]);
    let b = to_vec(&["h", "ə", "l", "oʊ"]);
    assert_eq!(distance(&a, &b), 0);
    assert_eq!(normalized_similarity(&a, &b), 1.0);
}

#[test]
fn test_phonetic_omission() {
    let target = to_vec(&["b", "j", "uː", "t", "ɪ", "f", "ʊ", "l"]);
    let spoken = to_vec(&["b", "j", "uː", "t", "ɪ", "f", "ʊ"]);
    assert_eq!(distance(&target, &spoken), 1);
    assert_eq!(normalized_similarity(&target, &spoken), 0.875);
}

#[test]
fn test_phonetic_substitution() {
    let target = to_vec(&["a", "ɾ", "i", "ɡ", "a", "t", "o", "u"]);
    let spoken = to_vec(&["a", "ʁ", "i", "ɡ", "a", "t", "o", "u"]);
    assert_eq!(distance(&target, &spoken), 1);
    assert_eq!(normalized_similarity(&target, &spoken), 0.875);
}

#[test]
fn test_phonetic_insertion() {
    let target = to_vec(&["b", "u", "k"]);
    let spoken = to_vec(&["b", "u", "k", "i"]);
    assert_eq!(distance(&target, &spoken), 1);
    assert_eq!(normalized_similarity(&target, &spoken), 0.75);
}

#[test]
fn test_empty_slices() {
    let empty: Vec<String> = vec![];
    assert_eq!(distance(&empty, &empty), 0);
    assert_eq!(normalized_similarity(&empty, &empty), 1.0);
}

#[test]
fn multi_char_tokens_compare_whole() {
    let a = to_vec(&["tʃ", "i"]);
    let b = to_vec(&["t", "ʃ", "i"]);
    assert_eq!(distance(&a, &b), 2);
    assert_eq!(similarity_parts(&a, &b), (2, 3));
}
