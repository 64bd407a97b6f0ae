use kotoba::scoring::g2p::{g2p, g2p_mecab_input, kana_to_ipa, parse_mecab_reading, scoring_version_tag};

#[test]
fn test_en_hello() {
    assert_eq!(g2p("hello", "en", None), vec!["h", "ə", "l", "oʊ"]);
}

#[test]
fn test_ja_arigato_direct_kana() {
    // ありがとう → a ɾ i ɡ a t o u
    let ipa = kana_to_ipa("ありがとう");
    assert_eq!(ipa, vec!["a", "ɾ", "i", "ɡ", "a", "t", "o", "u"]);
}

#[test]
fn test_ja_long_vowel() {
    // アー → aː
    let ipa = kana_to_ipa("アー");
    assert_eq!(ipa, vec!["aː"]);
}

#[test]
fn test_ja_geminate_sokuon() {
    // きっぷ → k i p p u
    let ipa = kana_to_ipa("きっぷ");
    assert_eq!(ipa, vec!["k", "i", "p", "p", "u"]);
}

#[test]
fn test_ja_alveolar_tap() {
    // ら → ɾ a (not r or l)
    let ipa = kana_to_ipa("ら");
    assert_eq!(ipa, vec!["ɾ", "a"]);
}

#[test]
fn test_ja_digraph_sha() {
    // しゃ → ʃ a
    let ipa = kana_to_ipa("しゃ");
    assert_eq!(ipa, vec!["ʃ", "a"]);
}

#[test]
fn test_ja_water_mizu() {
    // みず → m i z u
    let ipa = kana_to_ipa("みず");
    assert_eq!(ipa, vec!["m", "i", "z", "u"]);
}

#[test]
fn test_unknown_lang() {
    // None = no MeCab output; must still return empty vec for unknown lang
    let ipa = g2p("foo", "fr", None);
    assert!(ipa.is_empty());
}

#[test]
fn katakana_digraph_matches_hiragana() {
    assert_eq!(kana_to_ipa("キャ"), vec!["k", "j", "a"]);
    assert_eq!(kana_to_ipa("きゃ"), vec!["k", "j", "a"]);
    // mixed scripts do not form a digraph
    assert_eq!(kana_to_ipa("きャ"), vec!["k", "i", "a"]);
}

#[test]
fn long_mark_after_consonant_only_is_bare_length() {
    assert_eq!(kana_to_ipa("ンー"), vec!["ɲ", "ː"]);
    assert_eq!(kana_to_ipa("ー"), vec!["ː"]);
}

#[test]
fn sokuon_before_vowel_or_at_end_adds_nothing() {
    assert_eq!(kana_to_ipa("っあ"), vec!["a"]);
    assert_eq!(kana_to_ipa("あっ"), vec!["a"]);
    assert_eq!(kana_to_ipa("ちょっと"), vec!["tʃ", "o", "t", "t", "o"]);
}

#[test]
fn punctuation_and_latin_ignored_by_kana_table() {
    assert_eq!(kana_to_ipa("み、ず!"), vec!["m", "i", "z", "u"]);
}

#[test]
fn english_dictionary_and_fallback() {
    assert_eq!(g2p("  Thank You ", "en", None), vec!["θ", "æ", "ŋ", "k", "j", "uː"]);
    assert_eq!(g2p("box", "en", None), vec!["b", "ɔ", "ks"]);
    assert_eq!(g2p("é-a1", "en", None), vec!["æ"]);
    assert!(g2p("   ", "en", None).is_empty());
}

#[test]
fn japanese_uses_mecab_reading_when_present() {
    let out = "水\t名詞,普通名詞,一般,*,*,*,ミズ,水,水,ミズ,ミズ\nEOS\n";
    assert_eq!(parse_mecab_reading(out), "水");
    let out7 = "水\t0,1,2,3,4,5,6,ミズ,8,9\nEOS\n";
    assert_eq!(parse_mecab_reading(out7), "ミズ");
    assert_eq!(g2p("水", "ja", Some(out7)), vec!["m", "i", "z", "u"]);
    let out9 = "橋\t0,1,2,3,4,5,6,*,8,ハシ\r\nEOS\r\n";
    assert_eq!(parse_mecab_reading(out9), "ハシ");
    // empty reading falls back to the text itself
    assert_eq!(g2p("みず", "ja", Some("EOS\n")), vec!["m", "i", "z", "u"]);
    assert_eq!(g2p("みず", "ja", None), vec!["m", "i", "z", "u"]);
}

#[test]
fn mecab_input_only_for_nonblank_japanese() {
    assert_eq!(g2p_mecab_input("  水 ", "ja"), Some("水".to_string()));
    assert_eq!(g2p_mecab_input("   ", "ja"), None);
    assert_eq!(g2p_mecab_input("water", "en"), None);
}

#[test]
fn version_tags() {
    assert_eq!(scoring_version_tag("ja", true), "v2-ipa");
    assert_eq!(scoring_version_tag("ja", false), "v2-ipa-espeak-fallback");
    assert_eq!(scoring_version_tag("en", true), "v2-ipa");
    assert_eq!(scoring_version_tag("en", false), "v2-ipa-espeak-fallback");
}

#[test]
fn long_vowel_mark_lengthens_last_vowel() {
    assert_eq!(kana_to_ipa("か"), vec!["k", "a"]);
    assert_eq!(kana_to_ipa("かー"), vec!["k", "aː"]);
    let mut bare = kana_to_ipa("ん");
    bare.push("ː".to_string());
    assert_eq!(kana_to_ipa("んー"), bare);
}

#[test]
fn hiragana_text_reads_as_its_katakana_rewrite() {
    assert_eq!(kana_to_ipa("きゃく"), kana_to_ipa("キャク"));
    assert_eq!(kana_to_ipa("がっこう"), kana_to_ipa("ガッコウ"));
    assert_eq!(kana_to_ipa("らーめん"), kana_to_ipa("ラーメン"));
}

#[test]
fn english_ignores_padding_and_mecab_output() {
    assert_eq!(g2p("  hello \n", "en", Some("garbage")), g2p("hello", "en", None));
}

#[test]
fn mixed_script_text_reads_as_its_rewrites() {
    assert_eq!(kana_to_ipa("アい"), kana_to_ipa("アイ"));
    assert_eq!(kana_to_ipa("アい"), kana_to_ipa("あい"));
    assert_eq!(kana_to_ipa("キャく"), kana_to_ipa("きゃく"));
    assert_ne!(kana_to_ipa("きャ"), kana_to_ipa("キャ"));
}
