//! Grapheme-to-phoneme conversion, routed by language:
//!   - `ja`: the MeCab + UniDic reading (Katakana) when MeCab produced one,
//!     else the text itself, through a Kana → IPA table.
//!   - `en`: a static IPA vocabulary table with a grapheme-level fallback.
//!
//! Running MeCab is process I/O and happens outside this module: the caller
//! asks [`g2p_mecab_input`] what text to feed MeCab, runs it, and hands the
//! raw output (or `None` when MeCab is unavailable or failed) to [`g2p`].

use vstd::prelude::*;
use crate::scoring::levenshtein::{
    is_hiragana_letter, is_katakana_letter, katakana_to_hiragana, lemma_fold_agree, to_hiragana,
    to_katakana,
};
use crate::scoring::phonemic::phoneme_views;
use crate::text::{
    char_is_alphabetic, chars_eq, chars_of, find_char, find_from, is_alpha, lemma_split_nonempty, lemma_trim_idempotent,
    lowercase, slice_chars, split_chars, split_on, str_eq, string_from_chars, to_lowercase, trim,
    trim_chars, vec_views,
};

verus! {

// ─── Kana → IPA table (keyed by Hiragana; Katakana folds onto it) ───────────

/// Phonemes of a single (Hiragana-folded) kana, when it is not part of a
/// digraph. Characters outside the table yield no phoneme.
pub open spec fn mono_table(h: char) -> Seq<Seq<char>> {
    match h {
        'あ' => seq!["a"@],
        'い' => seq!["i"@],
        'う' => seq!["u"@],
        'え' => seq!["e"@],
        'お' => seq!["o"@],
        'か' => seq!["k"@, "a"@],
        'き' => seq!["k"@, "i"@],
        'く' => seq!["k"@, "u"@],
        'け' => seq!["k"@, "e"@],
        'こ' => seq!["k"@, "o"@],
        'さ' => seq!["s"@, "a"@],
        'し' => seq!["ʃ"@, "i"@],
        'す' => seq!["s"@, "u"@],
        'せ' => seq!["s"@, "e"@],
        'そ' => seq!["s"@, "o"@],
        'た' => seq!["t"@, "a"@],
        'ち' => seq!["tʃ"@, "i"@],
        'つ' => seq!["ts"@, "u"@],
        'て' => seq!["t"@, "e"@],
        'と' => seq!["t"@, "o"@],
        'な' => seq!["n"@, "a"@],
        'に' => seq!["ɲ"@, "i"@],
        'ぬ' => seq!["n"@, "u"@],
        'ね' => seq!["n"@, "e"@],
        'の' => seq!["n"@, "o"@],
        'は' => seq!["h"@, "a"@],
        'ひ' => seq!["ç"@, "i"@],
        'ふ' => seq!["ɸ"@, "u"@],
        'へ' => seq!["h"@, "e"@],
        'ほ' => seq!["h"@, "o"@],
        'ま' => seq!["m"@, "a"@],
        'み' => seq!["m"@, "i"@],
        'む' => seq!["m"@, "u"@],
        'め' => seq!["m"@, "e"@],
        'も' => seq!["m"@, "o"@],
        'や' => seq!["j"@, "a"@],
        'ゆ' => seq!["j"@, "u"@],
        'よ' => seq!["j"@, "o"@],
        'ら' => seq!["ɾ"@, "a"@],
        'り' => seq!["ɾ"@, "i"@],
        'る' => seq!["ɾ"@, "u"@],
        'れ' => seq!["ɾ"@, "e"@],
        'ろ' => seq!["ɾ"@, "o"@],
        'わ' => seq!["w"@, "a"@],
        'を' => seq!["o"@],
        'ん' => seq!["ɲ"@],
        'が' => seq!["ɡ"@, "a"@],
        'ぎ' => seq!["ɡ"@, "i"@],
        'ぐ' => seq!["ɡ"@, "u"@],
        'げ' => seq!["ɡ"@, "e"@],
        'ご' => seq!["ɡ"@, "o"@],
        'ざ' => seq!["z"@, "a"@],
        'じ' => seq!["dʒ"@, "i"@],
        'ず' => seq!["z"@, "u"@],
        'ぜ' => seq!["z"@, "e"@],
        'ぞ' => seq!["z"@, "o"@],
        'だ' => seq!["d"@, "a"@],
        'ぢ' => seq!["dʒ"@, "i"@],
        'づ' => seq!["z"@, "u"@],
        'で' => seq!["d"@, "e"@],
        'ど' => seq!["d"@, "o"@],
        'ば' => seq!["b"@, "a"@],
        'び' => seq!["b"@, "i"@],
        'ぶ' => seq!["b"@, "u"@],
        'べ' => seq!["b"@, "e"@],
        'ぼ' => seq!["b"@, "o"@],
        'ぱ' => seq!["p"@, "a"@],
        'ぴ' => seq!["p"@, "i"@],
        'ぷ' => seq!["p"@, "u"@],
        'ぺ' => seq!["p"@, "e"@],
        'ぽ' => seq!["p"@, "o"@],
        'ぁ' => seq!["a"@],
        'ぃ' => seq!["i"@],
        'ぅ' => seq!["u"@],
        'ぇ' => seq!["e"@],
        'ぉ' => seq!["o"@],
        'ゃ' => seq!["a"@],
        'ゅ' => seq!["u"@],
        'ょ' => seq!["o"@],
        _ => seq![],
    }
}

/// Onset phonemes of a (Hiragana-folded) kana that combines with a following
/// small ゃ/ゅ/ょ into a digraph.
pub open spec fn digraph_onset(h: char) -> Option<Seq<Seq<char>>> {
    match h {
        'き' => Some(seq!["k"@, "j"@]),
        'し' => Some(seq!["ʃ"@]),
        'ち' => Some(seq!["tʃ"@]),
        'に' => Some(seq!["ɲ"@]),
        'ひ' => Some(seq!["ç"@]),
        'み' => Some(seq!["m"@, "j"@]),
        'り' => Some(seq!["ɾ"@, "j"@]),
        'ぎ' => Some(seq!["ɡ"@, "j"@]),
        'じ' => Some(seq!["dʒ"@]),
        'び' => Some(seq!["b"@, "j"@]),
        'ぴ' => Some(seq!["p"@, "j"@]),
        _ => None,
    }
}

/// Consonant doubled by a sokuon in front of a (Hiragana-folded) kana; empty
/// when the kana has no consonant to double.
pub open spec fn sokuon_table(h: char) -> Seq<char> {
    match h {
        'か' | 'き' | 'く' | 'け' | 'こ' => "k"@,
        'さ' | 'す' | 'せ' | 'そ' | 'し' => "s"@,
        'た' | 'て' | 'と' | 'ち' | 'つ' => "t"@,
        'ぱ' | 'ぴ' | 'ぷ' | 'ぺ' | 'ぽ' => "p"@,
        'ば' | 'び' | 'ぶ' | 'べ' | 'ぼ' => "b"@,
        'だ' | 'で' | 'ど' => "d"@,
        'が' | 'ぎ' | 'ぐ' | 'げ' | 'ご' => "g"@,
        _ => ""@,
    }
}

/// The vowel of a small ゃ/ゅ/ょ (Hiragana-folded), which closes a digraph.
pub open spec fn small_y_vowel(h: char) -> Option<Seq<char>> {
    match h {
        'ゃ' => Some("a"@),
        'ゅ' => Some("u"@),
        'ょ' => Some("o"@),
        _ => None,
    }
}

/// Phonemes of the digraph `c1 c2` (consonant + small ゃ/ゅ/ょ, both written in
/// the same script), or `None` when the two characters form no digraph.
pub open spec fn digraph(c1: char, c2: char) -> Option<Seq<Seq<char>>> {
    if is_katakana_letter(c1) == is_katakana_letter(c2) {
        match (digraph_onset(to_hiragana(c1)), small_y_vowel(to_hiragana(c2))) {
            (Some(onset), Some(v)) => Some(onset.push(v)),
            _ => None,
        }
    } else {
        None
    }
}

/// A plain vowel phoneme.
pub open spec fn is_vowel_token(t: Seq<char>) -> bool {
    t == "a"@ || t == "i"@ || t == "u"@ || t == "e"@ || t == "o"@
}

/// The long-vowel mark ー: lengthens a preceding plain vowel, or stands as a
/// bare length mark.
pub open spec fn lengthen_last(acc: Seq<Seq<char>>) -> Seq<Seq<char>> {
    if acc.len() > 0 && is_vowel_token(acc.last()) {
        acc.drop_last().push(acc.last() + "ː"@)
    } else {
        acc.push("ː"@)
    }
}

/// Phonemes after reading the single character `s[i]` (no digraph there).
pub open spec fn single_step(s: Seq<char>, i: int, acc: Seq<Seq<char>>) -> Seq<Seq<char>> {
    if s[i] == 'ー' {
        lengthen_last(acc)
    } else if to_hiragana(s[i]) == 'っ' {
        if i + 1 < s.len() && sokuon_table(to_hiragana(s[i + 1])).len() > 0 {
            acc.push(sokuon_table(to_hiragana(s[i + 1])))
        } else {
            acc
        }
    } else {
        acc + mono_table(to_hiragana(s[i]))
    }
}

/// Phonemes of `s` read from position `i` on, after `acc` was produced for
/// the part before `i`.
pub open spec fn kana_ipa_from(s: Seq<char>, i: int, acc: Seq<Seq<char>>) -> Seq<Seq<char>>
    decreases s.len() - i,
{
    if i < 0 || i >= s.len() {
        acc
    } else if i + 1 < s.len() && digraph(s[i], s[i + 1]) is Some {
        kana_ipa_from(s, i + 2, acc + digraph(s[i], s[i + 1])->0)
    } else {
        kana_ipa_from(s, i + 1, single_step(s, i, acc))
    }
}

/// IPA phonemes of a Kana string, read left to right.
pub open spec fn kana_ipa(s: Seq<char>) -> Seq<Seq<char>> {
    kana_ipa_from(s, 0, seq![])
}

// ─── Exec table ─────────────────────────────────────────────────────────────

fn push1(out: &mut Vec<String>, a: &str)
    ensures
        phoneme_views(final(out)@) == phoneme_views(old(out)@) + seq![a@],
{
    let ghost before = out@;
    out.push(a.to_owned());
    assert(phoneme_views(out@) =~= phoneme_views(before) + seq![a@]);
}

fn push2(out: &mut Vec<String>, a: &str, b: &str)
    ensures
        phoneme_views(final(out)@) == phoneme_views(old(out)@) + seq![a@, b@],
{
    let ghost before = phoneme_views(out@);
    push1(out, a);
    push1(out, b);
    assert(phoneme_views(out@) =~= before + seq![a@, b@]);
}

fn tokens1(a: &str) -> (r: Vec<String>)
    ensures
        phoneme_views(r@) == seq![a@],
{
    let mut r: Vec<String> = Vec::new();
    push1(&mut r, a);
    assert(phoneme_views(Seq::<String>::empty()) =~= seq![]);
    r
}

fn tokens2(a: &str, b: &str) -> (r: Vec<String>)
    ensures
        phoneme_views(r@) == seq![a@, b@],
{
    let mut r: Vec<String> = Vec::new();
    push2(&mut r, a, b);
    assert(phoneme_views(Seq::<String>::empty()) =~= seq![]);
    r
}

/// Appends the phonemes of a single (Hiragana-folded) kana.
fn push_mono(out: &mut Vec<String>, h: char)
    ensures
        phoneme_views(final(out)@) == phoneme_views(old(out)@) + mono_table(h),
{
    match h {
        'あ' => push1(out, "a"),
        'い' => push1(out, "i"),
        'う' => push1(out, "u"),
        'え' => push1(out, "e"),
        'お' => push1(out, "o"),
        'か' => push2(out, "k", "a"),
        'き' => push2(out, "k", "i"),
        'く' => push2(out, "k", "u"),
        'け' => push2(out, "k", "e"),
        'こ' => push2(out, "k", "o"),
        'さ' => push2(out, "s", "a"),
        'し' => push2(out, "ʃ", "i"),
        'す' => push2(out, "s", "u"),
        'せ' => push2(out, "s", "e"),
        'そ' => push2(out, "s", "o"),
        'た' => push2(out, "t", "a"),
        'ち' => push2(out, "tʃ", "i"),
        'つ' => push2(out, "ts", "u"),
        'て' => push2(out, "t", "e"),
        'と' => push2(out, "t", "o"),
        'な' => push2(out, "n", "a"),
        'に' => push2(out, "ɲ", "i"),
        'ぬ' => push2(out, "n", "u"),
        'ね' => push2(out, "n", "e"),
        'の' => push2(out, "n", "o"),
        'は' => push2(out, "h", "a"),
        'ひ' => push2(out, "ç", "i"),
        'ふ' => push2(out, "ɸ", "u"),
        'へ' => push2(out, "h", "e"),
        'ほ' => push2(out, "h", "o"),
        'ま' => push2(out, "m", "a"),
        'み' => push2(out, "m", "i"),
        'む' => push2(out, "m", "u"),
        'め' => push2(out, "m", "e"),
        'も' => push2(out, "m", "o"),
        'や' => push2(out, "j", "a"),
        'ゆ' => push2(out, "j", "u"),
        'よ' => push2(out, "j", "o"),
        'ら' => push2(out, "ɾ", "a"),
        'り' => push2(out, "ɾ", "i"),
        'る' => push2(out, "ɾ", "u"),
        'れ' => push2(out, "ɾ", "e"),
        'ろ' => push2(out, "ɾ", "o"),
        'わ' => push2(out, "w", "a"),
        'を' => push1(out, "o"),
        'ん' => push1(out, "ɲ"),
        'が' => push2(out, "ɡ", "a"),
        'ぎ' => push2(out, "ɡ", "i"),
        'ぐ' => push2(out, "ɡ", "u"),
        'げ' => push2(out, "ɡ", "e"),
        'ご' => push2(out, "ɡ", "o"),
        'ざ' => push2(out, "z", "a"),
        'じ' => push2(out, "dʒ", "i"),
        'ず' => push2(out, "z", "u"),
        'ぜ' => push2(out, "z", "e"),
        'ぞ' => push2(out, "z", "o"),
        'だ' => push2(out, "d", "a"),
        'ぢ' => push2(out, "dʒ", "i"),
        'づ' => push2(out, "z", "u"),
        'で' => push2(out, "d", "e"),
        'ど' => push2(out, "d", "o"),
        'ば' => push2(out, "b", "a"),
        'び' => push2(out, "b", "i"),
        'ぶ' => push2(out, "b", "u"),
        'べ' => push2(out, "b", "e"),
        'ぼ' => push2(out, "b", "o"),
        'ぱ' => push2(out, "p", "a"),
        'ぴ' => push2(out, "p", "i"),
        'ぷ' => push2(out, "p", "u"),
        'ぺ' => push2(out, "p", "e"),
        'ぽ' => push2(out, "p", "o"),
        'ぁ' => push1(out, "a"),
        'ぃ' => push1(out, "i"),
        'ぅ' => push1(out, "u"),
        'ぇ' => push1(out, "e"),
        'ぉ' => push1(out, "o"),
        'ゃ' => push1(out, "a"),
        'ゅ' => push1(out, "u"),
        'ょ' => push1(out, "o"),
        _ => {
            assert(phoneme_views(out@) =~= phoneme_views(out@) + seq![]);
        },
    }
}

/// Onset phonemes of a digraph-forming (Hiragana-folded) kana.
fn digraph_onset_exec(h: char) -> (r: Option<Vec<String>>)
    ensures
        r is Some <==> digraph_onset(h) is Some,
        r matches Some(v) ==> phoneme_views(v@) == digraph_onset(h)->0,
{
    match h {
        'き' => Some(tokens2("k", "j")),
        'し' => Some(tokens1("ʃ")),
        'ち' => Some(tokens1("tʃ")),
        'に' => Some(tokens1("ɲ")),
        'ひ' => Some(tokens1("ç")),
        'み' => Some(tokens2("m", "j")),
        'り' => Some(tokens2("ɾ", "j")),
        'ぎ' => Some(tokens2("ɡ", "j")),
        'じ' => Some(tokens1("dʒ")),
        'び' => Some(tokens2("b", "j")),
        'ぴ' => Some(tokens2("p", "j")),
        _ => None,
    }
}

/// The consonant a sokuon doubles in front of `next` (`""` when none).
fn sokuon_consonant(next: char) -> (r: &'static str)
    ensures
        r@ == sokuon_table(to_hiragana(next)),
{
    match katakana_to_hiragana(next) {
        'か' | 'き' | 'く' | 'け' | 'こ' => "k",
        'さ' | 'す' | 'せ' | 'そ' | 'し' => "s",
        'た' | 'て' | 'と' | 'ち' | 'つ' => "t",
        'ぱ' | 'ぴ' | 'ぷ' | 'ぺ' | 'ぽ' => "p",
        'ば' | 'び' | 'ぶ' | 'べ' | 'ぼ' => "b",
        'だ' | 'で' | 'ど' => "d",
        'が' | 'ぎ' | 'ぐ' | 'げ' | 'ご' => "g",
        _ => "",
    }
}

/// Appends `v` to `out`.
fn append_tokens(out: &mut Vec<String>, v: Vec<String>)
    ensures
        phoneme_views(final(out)@) == phoneme_views(old(out)@) + phoneme_views(v@),
{
    let ghost before = out@;
    let mut v = v;
    let ghost vv = v@;
    out.append(&mut v);
    assert(phoneme_views(out@) =~= phoneme_views(before) + phoneme_views(vv));
}

/// Phonemes of the digraph `c1 c2`, if the two characters form one.
fn digraph_exec(c1: char, c2: char) -> (r: Option<Vec<String>>)
    ensures
        r is Some <==> digraph(c1, c2) is Some,
        r matches Some(v) ==> phoneme_views(v@) == digraph(c1, c2)->0,
{
    let k1 = 0x30A1 <= (c1 as u32) && (c1 as u32) <= 0x30F6;
    let k2 = 0x30A1 <= (c2 as u32) && (c2 as u32) <= 0x30F6;
    if k1 != k2 {
        return None;
    }
    let vowel: &str = match katakana_to_hiragana(c2) {
        'ゃ' => "a",
        'ゅ' => "u",
        'ょ' => "o",
        _ => {
            return None;
        },
    };
    match digraph_onset_exec(katakana_to_hiragana(c1)) {
        Some(onset) => {
            let mut v = onset;
            push1(&mut v, vowel);
            Some(v)
        },
        None => None,
    }
}

/// Whether `s` is one of the plain vowels a, i, u, e, o.
fn is_vowel_str(s: &str) -> (r: bool)
    ensures
        r == is_vowel_token(s@),
{
    str_eq(s, "a") || str_eq(s, "i") || str_eq(s, "u") || str_eq(s, "e") || str_eq(s, "o")
}

/// Converts Hiragana/Katakana text into IPA phoneme tokens: digraphs
/// (consonant + small ゃ/ゅ/ょ), the long-vowel mark ー (lengthens a plain
/// vowel), the sokuon っ/ッ (doubles the next consonant), and the alveolar tap
/// /ɾ/ for the ら row. Other characters yield nothing.
pub fn kana_to_ipa(text: &str) -> (r: Vec<String>)
    ensures
        phoneme_views(r@) == kana_ipa(text@),
{
    let chars = crate::text::chars_of(text);
    let mut ipa: Vec<String> = Vec::new();
    let mut i: usize = 0;
    assert(phoneme_views(ipa@) =~= seq![]);
    while i < chars.len()
        invariant
            i <= chars.len(),
            chars@ == text@,
            kana_ipa_from(chars@, i as int, phoneme_views(ipa@)) == kana_ipa(text@),
        decreases chars.len() - i,
    {
        let ghost acc0 = phoneme_views(ipa@);
        let ghost i0 = i as int;
        if i + 1 < chars.len() {
            match digraph_exec(chars[i], chars[i + 1]) {
                Some(ph) => {
                    append_tokens(&mut ipa, ph);
                    i += 2;
                    continue;
                },
                None => {},
            }
        }
        assert(!(i0 + 1 < chars@.len() && digraph(chars@[i0], chars@[i0 + 1]) is Some));
        let c = chars[i];
        if c == 'ー' {
            let n = ipa.len();
            if n > 0 && is_vowel_str(ipa[n - 1].as_str()) {
                let ghost before = ipa@;
                let last = ipa.pop().unwrap();
                ipa.push(last.concat("ː"));
                assert(phoneme_views(ipa@) =~= lengthen_last(phoneme_views(before)));
            } else {
                let ghost before = ipa@;
                push1(&mut ipa, "ː");
                assert(phoneme_views(ipa@) =~= lengthen_last(phoneme_views(before)));
            }
        } else if katakana_to_hiragana(c) == 'っ' {
            if i + 1 < chars.len() {
                let k = sokuon_consonant(chars[i + 1]);
                if !k.is_empty() {
                    push1(&mut ipa, k);
                }
            }
        } else {
            push_mono(&mut ipa, katakana_to_hiragana(c));
        }
        assert(phoneme_views(ipa@) == single_step(chars@, i0, acc0));
        i += 1;
    }
    ipa
}

// ─── English ────────────────────────────────────────────────────────────────

/// Static IPA dictionary for the seed vocabulary and common words.
pub open spec fn english_dict(w: Seq<char>) -> Option<Seq<Seq<char>>> {
    if w == "hello"@ {
        Some(seq!["h"@, "ə"@, "l"@, "oʊ"@])
    } else if w == "water"@ {
        Some(seq!["w"@, "ɔː"@, "t"@, "ə"@])
    } else if w == "thank"@ {
        Some(seq!["θ"@, "æ"@, "ŋ"@, "k"@])
    } else if w == "thank you"@ {
        Some(seq!["θ"@, "æ"@, "ŋ"@, "k"@, "j"@, "uː"@])
    } else if w == "beautiful"@ {
        Some(seq!["b"@, "j"@, "uː"@, "t"@, "ɪ"@, "f"@, "ʊ"@, "l"@])
    } else if w == "pronunciation"@ {
        Some(seq!["p"@, "ɹ"@, "ə"@, "n"@, "ʌ"@, "n"@, "s"@, "i"@, "eɪ"@, "ʃ"@, "ə"@, "n"@])
    } else if w == "apple"@ {
        Some(seq!["æ"@, "p"@, "ə"@, "l"@])
    } else if w == "book"@ {
        Some(seq!["b"@, "ʊ"@, "k"@])
    } else if w == "cat"@ {
        Some(seq!["k"@, "æ"@, "t"@])
    } else if w == "dog"@ {
        Some(seq!["d"@, "ɔː"@, "g"@])
    } else {
        None
    }
}

/// Approximate IPA of a single lowercase ASCII letter; empty for any other
/// character.
pub open spec fn letter_ipa(c: char) -> Seq<char> {
    match c {
        'a' => "æ"@,
        'b' => "b"@,
        'c' => "k"@,
        'd' => "d"@,
        'e' => "ɛ"@,
        'f' => "f"@,
        'g' => "g"@,
        'h' => "h"@,
        'i' => "ɪ"@,
        'j' => "dʒ"@,
        'k' => "k"@,
        'l' => "l"@,
        'm' => "m"@,
        'n' => "n"@,
        'o' => "ɔ"@,
        'p' => "p"@,
        'q' => "k"@,
        'r' => "ɹ"@,
        's' => "s"@,
        't' => "t"@,
        'u' => "ʌ"@,
        'v' => "v"@,
        'w' => "w"@,
        'x' => "ks"@,
        'y' => "j"@,
        'z' => "z"@,
        _ => ""@,
    }
}

/// Grapheme-level approximation: each alphabetic character with a letter
/// mapping contributes its phoneme, everything else is dropped.
pub open spec fn grapheme_fallback(s: Seq<char>) -> Seq<Seq<char>>
    decreases s.len(),
{
    if s.len() == 0 {
        seq![]
    } else {
        let rest = grapheme_fallback(s.drop_last());
        if is_alpha(s.last()) && letter_ipa(s.last()).len() > 0 {
            rest.push(letter_ipa(s.last()))
        } else {
            rest
        }
    }
}

/// Phonemes of a lowercased English word: dictionary entry, else the
/// grapheme approximation.
pub open spec fn english_ipa(lower: Seq<char>) -> Seq<Seq<char>> {
    match english_dict(lower) {
        Some(p) => p,
        None => grapheme_fallback(lower),
    }
}

/// Looks `word` up in the static IPA dictionary.
fn english_word_to_ipa(word: &str) -> (r: Option<Vec<String>>)
    ensures
        r is Some <==> english_dict(word@) is Some,
        r matches Some(v) ==> phoneme_views(v@) == english_dict(word@)->0,
{
    if str_eq(word, "hello") {
        let mut r: Vec<String> = Vec::new();
        let ghost mut acc: Seq<Seq<char>> = seq![];
        assert(phoneme_views(r@) =~= acc);
        push1(&mut r, "h");
        proof { acc = acc.push("h"@); }
        assert(phoneme_views(r@) =~= acc);
        push1(&mut r, "ə");
        proof { acc = acc.push("ə"@); }
        assert(phoneme_views(r@) =~= acc);
        push1(&mut r, "l");
        proof { acc = acc.push("l"@); }
        assert(phoneme_views(r@) =~= acc);
        push1(&mut r, "oʊ");
        proof { acc = acc.push("oʊ"@); }
        assert(phoneme_views(r@) =~= acc);
        assert(acc =~= seq!["h"@, "ə"@, "l"@, "oʊ"@]);
        return Some(r);
    }
    if str_eq(word, "water") {
        let mut r: Vec<String> = Vec::new();
        let ghost mut acc: Seq<Seq<char>> = seq![];
        assert(phoneme_views(r@) =~= acc);
        push1(&mut r, "w");
        proof { acc = acc.push("w"@); }
        assert(phoneme_views(r@) =~= acc);
        push1(&mut r, "ɔː");
        proof { acc = acc.push("ɔː"@); }
        assert(phoneme_views(r@) =~= acc);
        push1(&mut r, "t");
        proof { acc = acc.push("t"@); }
        assert(phoneme_views(r@) =~= acc);
        push1(&mut r, "ə");
        proof { acc = acc.push("ə"@); }
        assert(phoneme_views(r@) =~= acc);
        assert(acc =~= seq!["w"@, "ɔː"@, "t"@, "ə"@]);
        return Some(r);
    }
    if str_eq(word, "thank") {
        let mut r: Vec<String> = Vec::new();
        let ghost mut acc: Seq<Seq<char>> = seq![];
        assert(phoneme_views(r@) =~= acc);
        push1(&mut r, "θ");
        proof { acc = acc.push("θ"@); }
        assert(phoneme_views(r@) =~= acc);
        push1(&mut r, "æ");
        proof { acc = acc.push("æ"@); }
        assert(phoneme_views(r@) =~= acc);
        push1(&mut r, "ŋ");
        proof { acc = acc.push("ŋ"@); }
        assert(phoneme_views(r@) =~= acc);
        push1(&mut r, "k");
        proof { acc = acc.push("k"@); }
        assert(phoneme_views(r@) =~= acc);
        assert(acc =~= seq!["θ"@, "æ"@, "ŋ"@, "k"@]);
        return Some(r);
    }
    if str_eq(word, "thank you") {
        let mut r: Vec<String> = Vec::new();
        let ghost mut acc: Seq<Seq<char>> = seq![];
        assert(phoneme_views(r@) =~= acc);
        push1(&mut r, "θ");
        proof { acc = acc.push("θ"@); }
        assert(phoneme_views(r@) =~= acc);
        push1(&mut r, "æ");
        proof { acc = acc.push("æ"@); }
        assert(phoneme_views(r@) =~= acc);
        push1(&mut r, "ŋ");
        proof { acc = acc.push("ŋ"@); }
        assert(phoneme_views(r@) =~= acc);
        push1(&mut r, "k");
        proof { acc = acc.push("k"@); }
        assert(phoneme_views(r@) =~= acc);
        push1(&mut r, "j");
        proof { acc = acc.push("j"@); }
        assert(phoneme_views(r@) =~= acc);
        push1(&mut r, "uː");
        proof { acc = acc.push("uː"@); }
        assert(phoneme_views(r@) =~= acc);
        assert(acc =~= seq!["θ"@, "æ"@, "ŋ"@, "k"@, "j"@, "uː"@]);
        return Some(r);
    }
    if str_eq(word, "beautiful") {
        let mut r: Vec<String> = Vec::new();
        let ghost mut acc: Seq<Seq<char>> = seq![];
        assert(phoneme_views(r@) =~= acc);
        push1(&mut r, "b");
        proof { acc = acc.push("b"@); }
        assert(phoneme_views(r@) =~= acc);
        push1(&mut r, "j");
        proof { acc = acc.push("j"@); }
        assert(phoneme_views(r@) =~= acc);
        push1(&mut r, "uː");
        proof { acc = acc.push("uː"@); }
        assert(phoneme_views(r@) =~= acc);
        push1(&mut r, "t");
        proof { acc = acc.push("t"@); }
        assert(phoneme_views(r@) =~= acc);
        push1(&mut r, "ɪ");
        proof { acc = acc.push("ɪ"@); }
        assert(phoneme_views(r@) =~= acc);
        push1(&mut r, "f");
        proof { acc = acc.push("f"@); }
        assert(phoneme_views(r@) =~= acc);
        push1(&mut r, "ʊ");
        proof { acc = acc.push("ʊ"@); }
        assert(phoneme_views(r@) =~= acc);
        push1(&mut r, "l");
        proof { acc = acc.push("l"@); }
        assert(phoneme_views(r@) =~= acc);
        assert(acc =~= seq!["b"@, "j"@, "uː"@, "t"@, "ɪ"@, "f"@, "ʊ"@, "l"@]);
        return Some(r);
    }
    if str_eq(word, "pronunciation") {
        let mut r: Vec<String> = Vec::new();
        let ghost mut acc: Seq<Seq<char>> = seq![];
        assert(phoneme_views(r@) =~= acc);
        push1(&mut r, "p");
        proof { acc = acc.push("p"@); }
        assert(phoneme_views(r@) =~= acc);
        push1(&mut r, "ɹ");
        proof { acc = acc.push("ɹ"@); }
        assert(phoneme_views(r@) =~= acc);
        push1(&mut r, "ə");
        proof { acc = acc.push("ə"@); }
        assert(phoneme_views(r@) =~= acc);
        push1(&mut r, "n");
        proof { acc = acc.push("n"@); }
        assert(phoneme_views(r@) =~= acc);
        push1(&mut r, "ʌ");
        proof { acc = acc.push("ʌ"@); }
        assert(phoneme_views(r@) =~= acc);
        push1(&mut r, "n");
        proof { acc = acc.push("n"@); }
        assert(phoneme_views(r@) =~= acc);
        push1(&mut r, "s");
        proof { acc = acc.push("s"@); }
        assert(phoneme_views(r@) =~= acc);
        push1(&mut r, "i");
        proof { acc = acc.push("i"@); }
        assert(phoneme_views(r@) =~= acc);
        push1(&mut r, "eɪ");
        proof { acc = acc.push("eɪ"@); }
        assert(phoneme_views(r@) =~= acc);
        push1(&mut r, "ʃ");
        proof { acc = acc.push("ʃ"@); }
        assert(phoneme_views(r@) =~= acc);
        push1(&mut r, "ə");
        proof { acc = acc.push("ə"@); }
        assert(phoneme_views(r@) =~= acc);
        push1(&mut r, "n");
        proof { acc = acc.push("n"@); }
        assert(phoneme_views(r@) =~= acc);
        assert(acc =~= seq!["p"@, "ɹ"@, "ə"@, "n"@, "ʌ"@, "n"@, "s"@, "i"@, "eɪ"@, "ʃ"@, "ə"@, "n"@]);
        return Some(r);
    }
    if str_eq(word, "apple") {
        let mut r: Vec<String> = Vec::new();
        let ghost mut acc: Seq<Seq<char>> = seq![];
        assert(phoneme_views(r@) =~= acc);
        push1(&mut r, "æ");
        proof { acc = acc.push("æ"@); }
        assert(phoneme_views(r@) =~= acc);
        push1(&mut r, "p");
        proof { acc = acc.push("p"@); }
        assert(phoneme_views(r@) =~= acc);
        push1(&mut r, "ə");
        proof { acc = acc.push("ə"@); }
        assert(phoneme_views(r@) =~= acc);
        push1(&mut r, "l");
        proof { acc = acc.push("l"@); }
        assert(phoneme_views(r@) =~= acc);
        assert(acc =~= seq!["æ"@, "p"@, "ə"@, "l"@]);
        return Some(r);
    }
    if str_eq(word, "book") {
        let mut r: Vec<String> = Vec::new();
        let ghost mut acc: Seq<Seq<char>> = seq![];
        assert(phoneme_views(r@) =~= acc);
        push1(&mut r, "b");
        proof { acc = acc.push("b"@); }
        assert(phoneme_views(r@) =~= acc);
        push1(&mut r, "ʊ");
        proof { acc = acc.push("ʊ"@); }
        assert(phoneme_views(r@) =~= acc);
        push1(&mut r, "k");
        proof { acc = acc.push("k"@); }
        assert(phoneme_views(r@) =~= acc);
        assert(acc =~= seq!["b"@, "ʊ"@, "k"@]);
        return Some(r);
    }
    if str_eq(word, "cat") {
        let mut r: Vec<String> = Vec::new();
        let ghost mut acc: Seq<Seq<char>> = seq![];
        assert(phoneme_views(r@) =~= acc);
        push1(&mut r, "k");
        proof { acc = acc.push("k"@); }
        assert(phoneme_views(r@) =~= acc);
        push1(&mut r, "æ");
        proof { acc = acc.push("æ"@); }
        assert(phoneme_views(r@) =~= acc);
        push1(&mut r, "t");
        proof { acc = acc.push("t"@); }
        assert(phoneme_views(r@) =~= acc);
        assert(acc =~= seq!["k"@, "æ"@, "t"@]);
        return Some(r);
    }
    if str_eq(word, "dog") {
        let mut r: Vec<String> = Vec::new();
        let ghost mut acc: Seq<Seq<char>> = seq![];
        assert(phoneme_views(r@) =~= acc);
        push1(&mut r, "d");
        proof { acc = acc.push("d"@); }
        assert(phoneme_views(r@) =~= acc);
        push1(&mut r, "ɔː");
        proof { acc = acc.push("ɔː"@); }
        assert(phoneme_views(r@) =~= acc);
        push1(&mut r, "g");
        proof { acc = acc.push("g"@); }
        assert(phoneme_views(r@) =~= acc);
        assert(acc =~= seq!["d"@, "ɔː"@, "g"@]);
        return Some(r);
    }
    None
}

/// Approximate IPA of a single lowercase ASCII letter (`""` otherwise).
fn letter_to_ipa(c: char) -> (r: &'static str)
    ensures
        r@ == letter_ipa(c),
{
    match c {
        'a' => "æ",
        'b' => "b",
        'c' => "k",
        'd' => "d",
        'e' => "ɛ",
        'f' => "f",
        'g' => "g",
        'h' => "h",
        'i' => "ɪ",
        'j' => "dʒ",
        'k' => "k",
        'l' => "l",
        'm' => "m",
        'n' => "n",
        'o' => "ɔ",
        'p' => "p",
        'q' => "k",
        'r' => "ɹ",
        's' => "s",
        't' => "t",
        'u' => "ʌ",
        'v' => "v",
        'w' => "w",
        'x' => "ks",
        'y' => "j",
        'z' => "z",
        _ => "",
    }
}

/// Grapheme-level approximation of an English word.
fn english_grapheme_fallback(word: &str) -> (r: Vec<String>)
    ensures
        phoneme_views(r@) == grapheme_fallback(word@),
{
    let chars = chars_of(word);
    let mut r: Vec<String> = Vec::new();
    let mut i: usize = 0;
    assert(phoneme_views(r@) =~= grapheme_fallback(chars@.take(0)));
    while i < chars.len()
        invariant
            i <= chars.len(),
            chars@ == word@,
            phoneme_views(r@) == grapheme_fallback(chars@.take(i as int)),
        decreases chars.len() - i,
    {
        let c = chars[i];
        assert(chars@.take(i + 1).drop_last() =~= chars@.take(i as int));
        if char_is_alphabetic(c) {
            let p = letter_to_ipa(c);
            if !p.is_empty() {
                push1(&mut r, p);
            }
        }
        i += 1;
    }
    assert(chars@.take(chars.len() as int) =~= chars@);
    r
}

// ─── MeCab output ───────────────────────────────────────────────────────────

/// A UniDic feature field that carries a reading: neither `*` nor empty.
pub open spec fn usable_field(f: Seq<char>) -> bool {
    f != "*"@ && f.len() > 0
}

/// The reading one MeCab output line contributes: nothing for `EOS`, blank
/// lines and lines without a tab; otherwise UniDic field 7 (lemma reading),
/// else field 9 (pronunciation), else the surface form before the tab.
pub open spec fn line_reading(line: Seq<char>) -> Seq<char> {
    let t = trim(line);
    if t == "EOS"@ || t.len() == 0 {
        seq![]
    } else {
        match find_from(t, '\t', 0) {
            None => seq![],
            Some(k) => {
                let f = split_on(t.subrange(k + 1, t.len() as int), ',');
                if f.len() > 7 && usable_field(f[7]) {
                    f[7]
                } else if f.len() > 9 && usable_field(f[9]) {
                    f[9]
                } else {
                    t.subrange(0, k)
                }
            },
        }
    }
}

/// Readings of a sequence of lines, concatenated.
pub open spec fn lines_reading(lines: Seq<Seq<char>>) -> Seq<char>
    decreases lines.len(),
{
    if lines.len() == 0 {
        seq![]
    } else {
        lines_reading(lines.drop_last()) + line_reading(lines.last())
    }
}

/// The Katakana reading in MeCab UniDic output. Lines are split at `\n`;
/// since each line is trimmed, a `\r` before the `\n` and a final empty line
/// make no difference, exactly as with `str::lines`.
pub open spec fn mecab_reading(output: Seq<char>) -> Seq<char> {
    lines_reading(split_on(output, '\n'))
}

/// Whether a feature field carries a reading.
fn is_usable_field(f: &Vec<char>) -> (r: bool)
    ensures
        r == usable_field(f@),
{
    let star = chars_of("*");
    !chars_eq(f, &star) && f.len() > 0
}

/// The reading contributed by one MeCab output line.
fn parse_mecab_line(line: &Vec<char>) -> (r: Vec<char>)
    ensures
        r@ == line_reading(line@),
{
    let t = trim_chars(line);
    let eos = chars_of("EOS");
    if chars_eq(&t, &eos) || t.len() == 0 {
        return Vec::new();
    }
    match find_char(&t, '\t') {
        None => Vec::new(),
        Some(k) => {
            let rest = slice_chars(&t, k + 1, t.len());
            let f = split_chars(&rest, ',');
            if f.len() > 7 && is_usable_field(&f[7]) {
                assert(vec_views(f@)[7] == f@[7]@);
                slice_chars(&f[7], 0, f[7].len())
            } else if f.len() > 9 && is_usable_field(&f[9]) {
                assert(vec_views(f@)[9] == f@[9]@);
                slice_chars(&f[9], 0, f[9].len())
            } else {
                if f.len() > 7 {
                    assert(vec_views(f@)[7] == f@[7]@);
                }
                if f.len() > 9 {
                    assert(vec_views(f@)[9] == f@[9]@);
                }
                slice_chars(&t, 0, k)
            }
        },
    }
}

/// Parses MeCab UniDic tab-separated output to extract the Katakana reading.
/// UniDic format (simplified): `surface \t pos,pos2,...` with the lemma
/// reading in field 7 and the pronunciation in field 9.
pub fn parse_mecab_reading(mecab_output: &str) -> (r: String)
    ensures
        r@ == mecab_reading(mecab_output@),
{
    let chars = chars_of(mecab_output);
    let lines = split_chars(&chars, '\n');
    let mut reading: Vec<char> = Vec::new();
    let mut i: usize = 0;
    assert(vec_views(lines@).take(0) =~= Seq::<Seq<char>>::empty());
    while i < lines.len()
        invariant
            i <= lines.len(),
            vec_views(lines@) == split_on(mecab_output@, '\n'),
            reading@ == lines_reading(vec_views(lines@).take(i as int)),
        decreases lines.len() - i,
    {
        assert(vec_views(lines@).take(i + 1).drop_last() =~= vec_views(lines@).take(i as int));
        assert(vec_views(lines@)[i as int] == lines@[i as int]@);
        let mut part = parse_mecab_line(&lines[i]);
        reading.append(&mut part);
        i += 1;
    }
    assert(vec_views(lines@).take(lines.len() as int) =~= vec_views(lines@));
    string_from_chars(&reading)
}

// ─── Dispatcher ─────────────────────────────────────────────────────────────

/// Phonemes of `text` in language `lang`, given the raw output of MeCab run on
/// the trimmed text (`None` when MeCab is unavailable or failed).
pub open spec fn g2p_spec(text: Seq<char>, lang: Seq<char>, mecab_output: Option<Seq<char>>) -> Seq<Seq<char>> {
    let cleaned = trim(text);
    if cleaned.len() == 0 {
        seq![]
    } else if lang == "ja"@ {
        match mecab_output {
            Some(out) => if mecab_reading(out).len() > 0 {
                kana_ipa(mecab_reading(out))
            } else {
                kana_ipa(cleaned)
            },
            None => kana_ipa(cleaned),
        }
    } else if lang == "en"@ {
        english_ipa(lowercase(cleaned))
    } else {
        seq![]
    }
}

/// The text MeCab must read for `g2p(text, lang, ..)`: the trimmed text when
/// the language is Japanese and the text is not blank, else `None` (MeCab is
/// not consulted).
pub fn g2p_mecab_input(text: &str, lang: &str) -> (r: Option<String>)
    ensures
        (lang@ == "ja"@ && trim(text@).len() > 0) ==> (r matches Some(t) && t@ == trim(text@)),
        !(lang@ == "ja"@ && trim(text@).len() > 0) ==> r is None,
{
    let chars = chars_of(text);
    let cleaned = trim_chars(&chars);
    if cleaned.len() > 0 && str_eq(lang, "ja") {
        Some(string_from_chars(&cleaned))
    } else {
        None
    }
}

/// Converts an orthographic string into a vector of clean IPA phoneme tokens.
///
/// - `ja`: the MeCab reading when `mecab_output` (MeCab's raw output for the
///   trimmed text) yields a non-empty one, else direct Kana → IPA of the text.
/// - `en`: static IPA dictionary lookup of the lowercased text, else the
///   grapheme-level approximation.
/// - any other language, or blank text: no phonemes.
pub fn g2p(text: &str, lang: &str, mecab_output: Option<&str>) -> (r: Vec<String>)
    ensures
        phoneme_views(r@) == g2p_spec(text@, lang@, match mecab_output {
            Some(o) => Some(o@),
            None => None,
        }),
{
    let chars = chars_of(text);
    let cleaned = trim_chars(&chars);
    if cleaned.len() == 0 {
        let r: Vec<String> = Vec::new();
        assert(phoneme_views(r@) =~= seq![]);
        return r;
    }
    let cleaned_str = string_from_chars(&cleaned);
    if str_eq(lang, "ja") {
        match mecab_output {
            Some(out) => {
                let reading = parse_mecab_reading(out);
                if reading.as_str().is_empty() {
                    kana_to_ipa(cleaned_str.as_str())
                } else {
                    kana_to_ipa(reading.as_str())
                }
            },
            None => kana_to_ipa(cleaned_str.as_str()),
        }
    } else if str_eq(lang, "en") {
        let lower = to_lowercase(cleaned_str.as_str());
        match english_word_to_ipa(lower.as_str()) {
            Some(p) => p,
            None => english_grapheme_fallback(lower.as_str()),
        }
    } else {
        let r: Vec<String> = Vec::new();
        assert(phoneme_views(r@) =~= seq![]);
        r
    }
}

/// The scoring-version tag recorded with an attempt, so that comparisons
/// across phonemizers are flagged in the history: `v2-ipa` when MeCab is
/// available and `v2-ipa-espeak-fallback` when it is not. The tag names the
/// phonemizer set as a whole, so it is the same for every practice language.
pub fn scoring_version_tag(lang: &str, mecab_available: bool) -> (r: &'static str)
    ensures
        r@ == (if mecab_available { "v2-ipa"@ } else { "v2-ipa-espeak-fallback"@ }),
{
    if mecab_available {
        "v2-ipa"
    } else {
        "v2-ipa-espeak-fallback"
    }
}

// ─── Script independence ────────────────────────────────────────────────────

proof fn lemma_onset_is_hiragana(h: char)
    requires
        digraph_onset(h) is Some || small_y_vowel(h) is Some,
    ensures
        is_hiragana_letter(h),
{
}

proof fn lemma_scripts_step(h: Seq<char>, k: Seq<char>, i: int, acc: Seq<Seq<char>>)
    requires
        h.len() == k.len(),
        0 <= i < h.len(),
        forall|j: int| 0 <= j < h.len() ==> #[trigger] h[j] == to_hiragana(k[j]) || h[j] == k[j],
        forall|j: int| 0 <= j < h.len() ==> to_hiragana(#[trigger] h[j]) == to_hiragana(k[j]),
        forall|j: int| 0 <= j < h.len() ==> !is_katakana_letter(#[trigger] h[j]),
        forall|j: int| 0 <= j < h.len() ==> (#[trigger] h[j] == 'ー') == (k[j] == 'ー'),
        forall|j: int| 0 <= j < h.len() ==> (is_hiragana_letter(to_hiragana(#[trigger] k[j])) ==> is_katakana_letter(k[j])),
    ensures
        single_step(h, i, acc) == single_step(k, i, acc),
        i + 1 < h.len() ==> digraph(h[i], h[i + 1]) == digraph(k[i], k[i + 1]),
{
    if i + 1 < h.len() {
        let a = to_hiragana(k[i]);
        let b = to_hiragana(k[i + 1]);
        if digraph_onset(a) is Some && small_y_vowel(b) is Some {
            lemma_onset_is_hiragana(a);
            lemma_onset_is_hiragana(b);
        }
    }
}

proof fn lemma_scripts_from(h: Seq<char>, k: Seq<char>, i: int, acc: Seq<Seq<char>>)
    requires
        h.len() == k.len(),
        0 <= i,
        forall|j: int| 0 <= j < h.len() ==> #[trigger] h[j] == to_hiragana(k[j]) || h[j] == k[j],
        forall|j: int| 0 <= j < h.len() ==> to_hiragana(#[trigger] h[j]) == to_hiragana(k[j]),
        forall|j: int| 0 <= j < h.len() ==> !is_katakana_letter(#[trigger] h[j]),
        forall|j: int| 0 <= j < h.len() ==> (#[trigger] h[j] == 'ー') == (k[j] == 'ー'),
        forall|j: int| 0 <= j < h.len() ==> (is_hiragana_letter(to_hiragana(#[trigger] k[j])) ==> is_katakana_letter(k[j])),
    ensures
        kana_ipa_from(h, i, acc) == kana_ipa_from(k, i, acc),
    decreases h.len() - i,
{
    if i < h.len() {
        lemma_scripts_step(h, k, i, acc);
        if i + 1 < h.len() && digraph(h[i], h[i + 1]) is Some {
            lemma_scripts_from(h, k, i + 2, acc + digraph(h[i], h[i + 1])->0);
        } else {
            lemma_scripts_from(h, k, i + 1, single_step(h, i, acc));
        }
    }
}

/// Writing a text in Hiragana or in Katakana gives the same phonemes: the
/// Katakana spelling of `s` and its Hiragana spelling read identically.
pub proof fn lemma_kana_ipa_script_independent(s: Seq<char>)
    ensures
        kana_ipa(s.map_values(|c: char| to_katakana(c))) == kana_ipa(s.map_values(|c: char| to_hiragana(c))),
{
    let h = s.map_values(|c: char| to_hiragana(c));
    let k = s.map_values(|c: char| to_katakana(c));
    assert forall|j: int| 0 <= j < h.len() implies {
        &&& (#[trigger] h[j] == to_hiragana(k[j]) || h[j] == k[j])
        &&& to_hiragana(h[j]) == to_hiragana(k[j])
        &&& !is_katakana_letter(h[j])
        &&& (h[j] == 'ー') == (k[j] == 'ー')
        &&& (is_hiragana_letter(to_hiragana(k[j])) ==> is_katakana_letter(k[j]))
    } by {
        lemma_fold_agree(s[j]);
        lemma_fold_agree(h[j]);
        if is_hiragana_letter(s[j]) {
            let u = ((s[j] as u32) + 0x60) as u32;
            assert(((u as char) as u32) == u);
        }
        if is_katakana_letter(s[j]) {
            let u = ((s[j] as u32) - 0x60) as u32;
            assert(((u as char) as u32) == u);
        }
    }
    lemma_scripts_from(h, k, 0, seq![]);
}

/// A consonant kana at `i` and a small ゃ/ゅ/ょ at `i + 1` written in
/// different scripts, such as `きャ`: the pair reads as two syllables,
/// though written in one script it would be a single digraph.
pub open spec fn mixed_script_digraph_at(s: Seq<char>, i: int) -> bool {
    &&& 0 <= i
    &&& i + 1 < s.len()
    &&& digraph_onset(to_hiragana(s[i])) is Some
    &&& small_y_vowel(to_hiragana(s[i + 1])) is Some
    &&& is_katakana_letter(s[i]) != is_katakana_letter(s[i + 1])
}

proof fn lemma_same_reading_from(x: Seq<char>, y: Seq<char>, i: int, acc: Seq<Seq<char>>)
    requires
        x.len() == y.len(),
        0 <= i,
        forall|j: int| 0 <= j < x.len() ==> to_hiragana(#[trigger] x[j]) == to_hiragana(y[j]),
        forall|j: int| 0 <= j < x.len() ==> (#[trigger] x[j] == 'ー') == (y[j] == 'ー'),
        forall|j: int|
            0 <= j && j + 1 < x.len() ==> #[trigger] digraph(x[j], x[j + 1]) == digraph(y[j], y[j + 1]),
    ensures
        kana_ipa_from(x, i, acc) == kana_ipa_from(y, i, acc),
    decreases x.len() - i,
{
    if i < x.len() {
        if i + 1 < x.len() {
            assert(digraph(x[i], x[i + 1]) == digraph(y[i], y[i + 1]));
            assert(to_hiragana(x[i + 1]) == to_hiragana(y[i + 1]));
        }
        assert(to_hiragana(x[i]) == to_hiragana(y[i]));
        assert((x[i] == 'ー') == (y[i] == 'ー'));
        assert(single_step(x, i, acc) == single_step(y, i, acc));
        if i + 1 < x.len() && digraph(x[i], x[i + 1]) is Some {
            lemma_same_reading_from(x, y, i + 2, acc + digraph(x[i], x[i + 1])->0);
        } else {
            lemma_same_reading_from(x, y, i + 1, single_step(x, i, acc));
        }
    }
}

proof fn lemma_digraph_rewrite(c1: char, c2: char)
    requires
        !(digraph_onset(to_hiragana(c1)) is Some && small_y_vowel(to_hiragana(c2)) is Some
            && is_katakana_letter(c1) != is_katakana_letter(c2)),
    ensures
        digraph(to_katakana(c1), to_katakana(c2)) == digraph(c1, c2),
        digraph(to_hiragana(c1), to_hiragana(c2)) == digraph(c1, c2),
        to_hiragana(to_katakana(c1)) == to_hiragana(c1),
        to_hiragana(to_hiragana(c1)) == to_hiragana(c1),
{
    lemma_fold_agree(c1);
    lemma_fold_agree(c2);
    lemma_fold_agree(to_hiragana(c1));
    lemma_fold_agree(to_hiragana(c2));
    if digraph_onset(to_hiragana(c1)) is Some && small_y_vowel(to_hiragana(c2)) is Some {
        lemma_onset_is_hiragana(to_hiragana(c1));
        lemma_onset_is_hiragana(to_hiragana(c2));
        if is_hiragana_letter(c1) {
            let u = ((c1 as u32) + 0x60) as u32;
            assert(((u as char) as u32) == u);
        }
        if is_hiragana_letter(c2) {
            let u = ((c2 as u32) + 0x60) as u32;
            assert(((u as char) as u32) == u);
        }
        if is_katakana_letter(c1) {
            let u = ((c1 as u32) - 0x60) as u32;
            assert(((u as char) as u32) == u);
        }
        if is_katakana_letter(c2) {
            let u = ((c2 as u32) - 0x60) as u32;
            assert(((u as char) as u32) == u);
        }
    }
}

/// Hiragana and Katakana spellings read the same: rewriting every Hiragana
/// letter of `s` in Katakana, or every Katakana letter in Hiragana, leaves
/// its phonemes unchanged, provided `s` holds no consonant and small
/// ゃ/ゅ/ょ written in different scripts next to each other (`きャ`), the
/// one place where the script decides whether a digraph is read.
pub proof fn lemma_kana_ipa_script_rewrite(s: Seq<char>)
    requires
        forall|i: int| !#[trigger] mixed_script_digraph_at(s, i),
    ensures
        kana_ipa(s.map_values(|c: char| to_katakana(c))) == kana_ipa(s),
        kana_ipa(s.map_values(|c: char| to_hiragana(c))) == kana_ipa(s),
{
    let k = s.map_values(|c: char| to_katakana(c));
    let h = s.map_values(|c: char| to_hiragana(c));
    assert forall|j: int| 0 <= j < s.len() implies {
        &&& to_hiragana(#[trigger] k[j]) == to_hiragana(s[j])
        &&& to_hiragana(h[j]) == to_hiragana(s[j])
        &&& (k[j] == 'ー') == (s[j] == 'ー')
        &&& (h[j] == 'ー') == (s[j] == 'ー')
    } by {
        lemma_fold_agree(s[j]);
        lemma_fold_agree(to_hiragana(s[j]));
    }
    assert forall|j: int| 0 <= j && j + 1 < s.len() implies #[trigger] digraph(k[j], k[j + 1])
        == digraph(s[j], s[j + 1]) by {
        assert(!mixed_script_digraph_at(s, j));
        lemma_digraph_rewrite(s[j], s[j + 1]);
    }
    assert forall|j: int| 0 <= j && j + 1 < s.len() implies #[trigger] digraph(h[j], h[j + 1])
        == digraph(s[j], s[j + 1]) by {
        assert(!mixed_script_digraph_at(s, j));
        lemma_digraph_rewrite(s[j], s[j + 1]);
    }
    lemma_same_reading_from(k, s, 0, seq![]);
    lemma_same_reading_from(h, s, 0, seq![]);
}

// ─── The long-vowel mark ────────────────────────────────────────────────────

proof fn lemma_long_mark_from(s: Seq<char>, i: int, acc: Seq<Seq<char>>)
    requires
        0 <= i <= s.len(),
    ensures
        kana_ipa_from(s.push('ー'), i, acc) == lengthen_last(kana_ipa_from(s, i, acc)),
    decreases s.len() - i,
{
    let t = s.push('ー');
    assert(t[s.len() as int] == 'ー');
    assert(!is_katakana_letter('ー'));
    assert(to_hiragana('ー') == 'ー');
    assert(small_y_vowel('ー') is None);
    reveal_strlit("");
    assert(sokuon_table('ー').len() == 0);
    if i < s.len() {
        assert(t[i] == s[i]);
        if i + 1 < s.len() {
            assert(t[i + 1] == s[i + 1]);
        }
        if i + 1 < s.len() && digraph(s[i], s[i + 1]) is Some {
            lemma_long_mark_from(s, i + 2, acc + digraph(s[i], s[i + 1])->0);
        } else {
            assert(single_step(t, i, acc) == single_step(s, i, acc));
            lemma_long_mark_from(s, i + 1, single_step(s, i, acc));
        }
    } else {
        assert(kana_ipa_from(t, i + 1, lengthen_last(acc)) == lengthen_last(acc));
    }
}

/// Appending the long-vowel mark ー to a word lengthens its last phoneme
/// when that is a plain vowel, and otherwise adds a bare length mark.
pub proof fn lemma_kana_ipa_long_vowel_mark(s: Seq<char>)
    ensures
        kana_ipa(s.push('ー')) == lengthen_last(kana_ipa(s)),
{
    lemma_long_mark_from(s, 0, seq![]);
}

/// English phonemes depend neither on the MeCab output nor on whitespace
/// around the text: the trimmed text reads the same as the text itself.
pub proof fn lemma_g2p_english_ignores_mecab_and_padding(
    text: Seq<char>,
    m1: Option<Seq<char>>,
    m2: Option<Seq<char>>,
)
    ensures
        g2p_spec(text, "en"@, m1) == g2p_spec(trim(text), "en"@, m2),
{
    lemma_trim_idempotent(text);
    reveal_strlit("en");
    reveal_strlit("ja");
    assert("en"@[0] != "ja"@[0]);
}

// ─── The syllabary, read one kana at a time ─────────────────────────────────

/// The reading of each kana of the syllabary standing on its own (small
/// ゃ/ゅ/ょ, which close digraphs, and the sokuon っ, which doubles the next
/// consonant, are not listed), row by row of the gojūon table.
pub open spec fn syllabary_reading(h: char) -> Option<Seq<Seq<char>>> {
    match h {
        // vowels
        'あ' => Some(seq!["a"@]),
        'い' => Some(seq!["i"@]),
        'う' => Some(seq!["u"@]),
        'え' => Some(seq!["e"@]),
        'お' => Some(seq!["o"@]),
        // k
        'か' => Some(seq!["k"@, "a"@]),
        'き' => Some(seq!["k"@, "i"@]),
        'く' => Some(seq!["k"@, "u"@]),
        'け' => Some(seq!["k"@, "e"@]),
        'こ' => Some(seq!["k"@, "o"@]),
        // s (し is /ʃi/)
        'さ' => Some(seq!["s"@, "a"@]),
        'し' => Some(seq!["ʃ"@, "i"@]),
        'す' => Some(seq!["s"@, "u"@]),
        'せ' => Some(seq!["s"@, "e"@]),
        'そ' => Some(seq!["s"@, "o"@]),
        // t (ち is /tʃi/, つ is /tsu/)
        'た' => Some(seq!["t"@, "a"@]),
        'ち' => Some(seq!["tʃ"@, "i"@]),
        'つ' => Some(seq!["ts"@, "u"@]),
        'て' => Some(seq!["t"@, "e"@]),
        'と' => Some(seq!["t"@, "o"@]),
        // n (に is /ɲi/)
        'な' => Some(seq!["n"@, "a"@]),
        'に' => Some(seq!["ɲ"@, "i"@]),
        'ぬ' => Some(seq!["n"@, "u"@]),
        'ね' => Some(seq!["n"@, "e"@]),
        'の' => Some(seq!["n"@, "o"@]),
        // h (ひ is /çi/, ふ is /ɸu/)
        'は' => Some(seq!["h"@, "a"@]),
        'ひ' => Some(seq!["ç"@, "i"@]),
        'ふ' => Some(seq!["ɸ"@, "u"@]),
        'へ' => Some(seq!["h"@, "e"@]),
        'ほ' => Some(seq!["h"@, "o"@]),
        // m
        'ま' => Some(seq!["m"@, "a"@]),
        'み' => Some(seq!["m"@, "i"@]),
        'む' => Some(seq!["m"@, "u"@]),
        'め' => Some(seq!["m"@, "e"@]),
        'も' => Some(seq!["m"@, "o"@]),
        // y
        'や' => Some(seq!["j"@, "a"@]),
        'ゆ' => Some(seq!["j"@, "u"@]),
        'よ' => Some(seq!["j"@, "o"@]),
        // r (an alveolar tap)
        'ら' => Some(seq!["ɾ"@, "a"@]),
        'り' => Some(seq!["ɾ"@, "i"@]),
        'る' => Some(seq!["ɾ"@, "u"@]),
        'れ' => Some(seq!["ɾ"@, "e"@]),
        'ろ' => Some(seq!["ɾ"@, "o"@]),
        // w, and the moraic nasal
        'わ' => Some(seq!["w"@, "a"@]),
        'を' => Some(seq!["o"@]),
        'ん' => Some(seq!["ɲ"@]),
        // g
        'が' => Some(seq!["ɡ"@, "a"@]),
        'ぎ' => Some(seq!["ɡ"@, "i"@]),
        'ぐ' => Some(seq!["ɡ"@, "u"@]),
        'げ' => Some(seq!["ɡ"@, "e"@]),
        'ご' => Some(seq!["ɡ"@, "o"@]),
        // z (じ is /dʒi/)
        'ざ' => Some(seq!["z"@, "a"@]),
        'じ' => Some(seq!["dʒ"@, "i"@]),
        'ず' => Some(seq!["z"@, "u"@]),
        'ぜ' => Some(seq!["z"@, "e"@]),
        'ぞ' => Some(seq!["z"@, "o"@]),
        // d (ぢ is /dʒi/, づ is /zu/)
        'だ' => Some(seq!["d"@, "a"@]),
        'ぢ' => Some(seq!["dʒ"@, "i"@]),
        'づ' => Some(seq!["z"@, "u"@]),
        'で' => Some(seq!["d"@, "e"@]),
        'ど' => Some(seq!["d"@, "o"@]),
        // b
        'ば' => Some(seq!["b"@, "a"@]),
        'び' => Some(seq!["b"@, "i"@]),
        'ぶ' => Some(seq!["b"@, "u"@]),
        'べ' => Some(seq!["b"@, "e"@]),
        'ぼ' => Some(seq!["b"@, "o"@]),
        // p
        'ぱ' => Some(seq!["p"@, "a"@]),
        'ぴ' => Some(seq!["p"@, "i"@]),
        'ぷ' => Some(seq!["p"@, "u"@]),
        'ぺ' => Some(seq!["p"@, "e"@]),
        'ぽ' => Some(seq!["p"@, "o"@]),
        // small vowels
        'ぁ' => Some(seq!["a"@]),
        'ぃ' => Some(seq!["i"@]),
        'ぅ' => Some(seq!["u"@]),
        'ぇ' => Some(seq!["e"@]),
        'ぉ' => Some(seq!["o"@]),
        _ => None,
    }
}

proof fn lemma_table_matches_syllabary(h: char)
    requires
        syllabary_reading(h) is Some,
    ensures
        mono_table(h) == syllabary_reading(h)->0,
        small_y_vowel(h) is None,
        h != 'っ',
        h != 'ー',
{
}

proof fn lemma_append_kana_from(s: Seq<char>, c: char, i: int, acc: Seq<Seq<char>>)
    requires
        0 <= i <= s.len(),
        syllabary_reading(to_hiragana(c)) is Some,
        s.len() == 0 || to_hiragana(s.last()) != 'っ',
    ensures
        kana_ipa_from(s.push(c), i, acc) == kana_ipa_from(s, i, acc) + mono_table(to_hiragana(c)),
    decreases s.len() - i,
{
    let t = s.push(c);
    lemma_table_matches_syllabary(to_hiragana(c));
    assert(t[s.len() as int] == c);
    assert(c != 'ー') by {
        assert(to_hiragana('ー') == 'ー');
    }
    if i < s.len() {
        assert(t[i] == s[i]);
        if i + 1 < s.len() {
            assert(t[i + 1] == s[i + 1]);
            if digraph(s[i], s[i + 1]) is Some {
                lemma_append_kana_from(s, c, i + 2, acc + digraph(s[i], s[i + 1])->0);
            } else {
                assert(single_step(t, i, acc) == single_step(s, i, acc));
                lemma_append_kana_from(s, c, i + 1, single_step(s, i, acc));
            }
        } else {
            assert(s.last() == s[i]);
            assert(digraph(t[i], t[i + 1]) is None);
            assert(single_step(t, i, acc) == single_step(s, i, acc));
            lemma_append_kana_from(s, c, i + 1, single_step(s, i, acc));
        }
    } else {
        assert(single_step(t, i, acc) == acc + mono_table(to_hiragana(c)));
        assert(kana_ipa_from(t, i + 1, acc + mono_table(to_hiragana(c))) == acc + mono_table(to_hiragana(c)));
        assert(kana_ipa_from(s, i, acc) == acc);
    }
}

/// Reading a kana of the syllabary after a text adds exactly that kana's
/// own reading: `すし` reads `す` then `し`, /s u ʃ i/. This holds in either
/// script (the kana is read through its Hiragana form) and after any text
/// that does not end with a sokuon, which would double the kana's consonant.
pub proof fn lemma_kana_ipa_append_syllable(s: Seq<char>, c: char)
    requires
        syllabary_reading(to_hiragana(c)) is Some,
        s.len() == 0 || to_hiragana(s.last()) != 'っ',
    ensures
        kana_ipa(s.push(c)) == kana_ipa(s) + syllabary_reading(to_hiragana(c))->0,
{
    lemma_table_matches_syllabary(to_hiragana(c));
    lemma_append_kana_from(s, c, 0, seq![]);
}

// ─── The English seed vocabulary ────────────────────────────────────────────

/// Every word of the seed vocabulary is read from the dictionary, whatever
/// its surrounding whitespace or letter case and whatever the MeCab output:
/// a non-blank text whose trimmed, lowercased form is one of the words reads
/// as that word's reference IPA.
pub proof fn lemma_english_seed_vocabulary(text: Seq<char>, mecab_output: Option<Seq<char>>)
    requires
        trim(text).len() > 0,
    ensures
        lowercase(trim(text)) == "hello"@ ==> g2p_spec(text, "en"@, mecab_output) == seq!["h"@, "ə"@, "l"@, "oʊ"@],
        lowercase(trim(text)) == "water"@ ==> g2p_spec(text, "en"@, mecab_output) == seq!["w"@, "ɔː"@, "t"@, "ə"@],
        lowercase(trim(text)) == "thank"@ ==> g2p_spec(text, "en"@, mecab_output) == seq!["θ"@, "æ"@, "ŋ"@, "k"@],
        lowercase(trim(text)) == "thank you"@ ==> g2p_spec(text, "en"@, mecab_output) == seq!["θ"@, "æ"@, "ŋ"@, "k"@, "j"@, "uː"@],
        lowercase(trim(text)) == "beautiful"@ ==> g2p_spec(text, "en"@, mecab_output) == seq!["b"@, "j"@, "uː"@, "t"@, "ɪ"@, "f"@, "ʊ"@, "l"@],
        lowercase(trim(text)) == "pronunciation"@ ==> g2p_spec(text, "en"@, mecab_output) == seq!["p"@, "ɹ"@, "ə"@, "n"@, "ʌ"@, "n"@, "s"@, "i"@, "eɪ"@, "ʃ"@, "ə"@, "n"@],
        lowercase(trim(text)) == "apple"@ ==> g2p_spec(text, "en"@, mecab_output) == seq!["æ"@, "p"@, "ə"@, "l"@],
        lowercase(trim(text)) == "book"@ ==> g2p_spec(text, "en"@, mecab_output) == seq!["b"@, "ʊ"@, "k"@],
        lowercase(trim(text)) == "cat"@ ==> g2p_spec(text, "en"@, mecab_output) == seq!["k"@, "æ"@, "t"@],
        lowercase(trim(text)) == "dog"@ ==> g2p_spec(text, "en"@, mecab_output) == seq!["d"@, "ɔː"@, "g"@],
{
    reveal_strlit("hello");
    reveal_strlit("water");
    reveal_strlit("thank");
    reveal_strlit("thank you");
    reveal_strlit("beautiful");
    reveal_strlit("pronunciation");
    reveal_strlit("apple");
    reveal_strlit("book");
    reveal_strlit("cat");
    reveal_strlit("dog");
    reveal_strlit("en");
    reveal_strlit("ja");
    assert("en"@[0] != "ja"@[0]);
    assert("hello"@[0] != "water"@[0]);
    assert("hello"@[0] != "thank"@[0]);
    assert("water"@[0] != "thank"@[0]);
    assert("thank you"@[0] != "beautiful"@[0]);
    assert("hello"@[0] != "apple"@[0]);
    assert("water"@[0] != "apple"@[0]);
    assert("thank"@[0] != "apple"@[0]);
    assert("cat"@[0] != "dog"@[0]);
    assert("hello"@.len() != "thank you"@.len());
    assert("water"@.len() != "thank you"@.len());
    assert("thank"@.len() != "thank you"@.len());
    assert("hello"@.len() != "beautiful"@.len());
    assert("water"@.len() != "beautiful"@.len());
    assert("thank"@.len() != "beautiful"@.len());
    assert("hello"@.len() != "pronunciation"@.len());
    assert("water"@.len() != "pronunciation"@.len());
    assert("thank"@.len() != "pronunciation"@.len());
    assert("thank you"@.len() != "pronunciation"@.len());
    assert("beautiful"@.len() != "pronunciation"@.len());
    assert("thank you"@.len() != "apple"@.len());
    assert("beautiful"@.len() != "apple"@.len());
    assert("pronunciation"@.len() != "apple"@.len());
    assert("hello"@.len() != "book"@.len());
    assert("water"@.len() != "book"@.len());
    assert("thank"@.len() != "book"@.len());
    assert("thank you"@.len() != "book"@.len());
    assert("beautiful"@.len() != "book"@.len());
    assert("pronunciation"@.len() != "book"@.len());
    assert("apple"@.len() != "book"@.len());
    assert("hello"@.len() != "cat"@.len());
    assert("water"@.len() != "cat"@.len());
    assert("thank"@.len() != "cat"@.len());
    assert("thank you"@.len() != "cat"@.len());
    assert("beautiful"@.len() != "cat"@.len());
    assert("pronunciation"@.len() != "cat"@.len());
    assert("apple"@.len() != "cat"@.len());
    assert("book"@.len() != "cat"@.len());
    assert("hello"@.len() != "dog"@.len());
    assert("water"@.len() != "dog"@.len());
    assert("thank"@.len() != "dog"@.len());
    assert("thank you"@.len() != "dog"@.len());
    assert("beautiful"@.len() != "dog"@.len());
    assert("pronunciation"@.len() != "dog"@.len());
    assert("apple"@.len() != "dog"@.len());
    assert("book"@.len() != "dog"@.len());
}

// ─── Digraphs and the sokuon ────────────────────────────────────────────────

/// The consonant that a kana of the i-column takes before a small
/// ゃ/ゅ/ょ: the palatalised onset of the digraph (`きゃ` is /k j a/,
/// `しゃ` is /ʃ a/).
pub open spec fn palatal_onset(h: char) -> Option<Seq<Seq<char>>> {
    match h {
        'き' => Some(seq!["k"@, "j"@]),
        'し' => Some(seq!["ʃ"@]),
        'ち' => Some(seq!["tʃ"@]),
        'に' => Some(seq!["ɲ"@]),
        'ひ' => Some(seq!["ç"@]),
        'み' => Some(seq!["m"@, "j"@]),
        'り' => Some(seq!["ɾ"@, "j"@]),
        'ぎ' => Some(seq!["ɡ"@, "j"@]),
        'じ' => Some(seq!["dʒ"@]),
        'び' => Some(seq!["b"@, "j"@]),
        'ぴ' => Some(seq!["p"@, "j"@]),
        _ => None,
    }
}

/// The vowel a small ゃ/ゅ/ょ gives the digraph it closes.
pub open spec fn small_y_reading(h: char) -> Option<Seq<char>> {
    match h {
        'ゃ' => Some("a"@),
        'ゅ' => Some("u"@),
        'ょ' => Some("o"@),
        _ => None,
    }
}

/// The consonant a sokuon っ doubles in front of a kana: the plosive or
/// fricative that starts its row (`っし` doubles /s/, `っち` doubles /t/);
/// `None` for a kana with no consonant to double.
pub open spec fn doubled_consonant(h: char) -> Option<Seq<char>> {
    match h {
        'か' | 'き' | 'く' | 'け' | 'こ' => Some("k"@),
        'さ' | 'し' | 'す' | 'せ' | 'そ' => Some("s"@),
        'た' | 'ち' | 'つ' | 'て' | 'と' => Some("t"@),
        'ぱ' | 'ぴ' | 'ぷ' | 'ぺ' | 'ぽ' => Some("p"@),
        'ば' | 'び' | 'ぶ' | 'べ' | 'ぼ' => Some("b"@),
        'だ' | 'で' | 'ど' => Some("d"@),
        'が' | 'ぎ' | 'ぐ' | 'げ' | 'ご' => Some("g"@),
        _ => None,
    }
}

/// Where a text may be cut so that its two parts are read independently: the
/// first part does not end with a sokuon, and its last kana does not form a
/// digraph with the first kana of the second part.
pub open spec fn reads_apart(s: Seq<char>, u: Seq<char>) -> bool {
    s.len() == 0 || u.len() == 0 || (to_hiragana(s.last()) != 'っ' && digraph(s.last(), u[0]) is None)
}

proof fn lemma_split_from(s: Seq<char>, u: Seq<char>, i: int, acc: Seq<Seq<char>>)
    requires
        0 <= i <= s.len(),
        reads_apart(s, u),
    ensures
        kana_ipa_from(s + u, i, acc) == kana_ipa_from(s + u, s.len() as int, kana_ipa_from(s, i, acc)),
    decreases s.len() - i,
{
    let t = s + u;
    if i < s.len() {
        assert(t[i] == s[i]);
        if i + 1 < s.len() {
            assert(t[i + 1] == s[i + 1]);
            if digraph(s[i], s[i + 1]) is Some {
                lemma_split_from(s, u, i + 2, acc + digraph(s[i], s[i + 1])->0);
            } else {
                assert(single_step(t, i, acc) == single_step(s, i, acc));
                lemma_split_from(s, u, i + 1, single_step(s, i, acc));
            }
        } else {
            assert(s.last() == s[i]);
            if u.len() > 0 {
                assert(t[i + 1] == u[0]);
            }
            assert(single_step(t, i, acc) == single_step(s, i, acc));
            lemma_split_from(s, u, i + 1, single_step(s, i, acc));
        }
    }
}

/// A digraph written after a text reads as its palatalised onset and the
/// vowel of the small kana: `いしゃ` is /i ʃ a/. Both kana of the digraph
/// must be in one script; the text before it must not end with a sokuon.
pub proof fn lemma_kana_ipa_append_digraph(s: Seq<char>, c1: char, c2: char)
    requires
        palatal_onset(to_hiragana(c1)) is Some,
        small_y_reading(to_hiragana(c2)) is Some,
        is_katakana_letter(c1) == is_katakana_letter(c2),
        s.len() == 0 || to_hiragana(s.last()) != 'っ',
    ensures
        kana_ipa(s + seq![c1, c2]) == kana_ipa(s) + palatal_onset(to_hiragana(c1))->0.push(
            small_y_reading(to_hiragana(c2))->0,
        ),
{
    let u = seq![c1, c2];
    let t = s + u;
    let n = s.len() as int;
    assert(small_y_vowel(to_hiragana(c1)) is None);
    if s.len() > 0 {
        assert(digraph(s.last(), u[0]) is None);
    }
    lemma_split_from(s, u, 0, seq![]);
    assert(t[n] == c1 && t[n + 1] == c2);
    assert(digraph(c1, c2) == Some(palatal_onset(to_hiragana(c1))->0.push(small_y_reading(to_hiragana(c2))->0)));
    let x = kana_ipa(s);
    assert(kana_ipa_from(t, n + 2, x + digraph(c1, c2)->0) == x + digraph(c1, c2)->0);
}

/// A sokuon written after a text, in front of a kana of the syllabary,
/// doubles that kana's consonant: `きって` is /k i t t e/. In front of a kana
/// with no consonant to double it is silent.
pub proof fn lemma_kana_ipa_append_sokuon(s: Seq<char>, q: char, c: char)
    requires
        to_hiragana(q) == 'っ',
        syllabary_reading(to_hiragana(c)) is Some,
        s.len() == 0 || to_hiragana(s.last()) != 'っ',
    ensures
        doubled_consonant(to_hiragana(c)) is Some ==> kana_ipa(s + seq![q, c]) == kana_ipa(s)
            + seq![doubled_consonant(to_hiragana(c))->0] + syllabary_reading(to_hiragana(c))->0,
        doubled_consonant(to_hiragana(c)) is None ==> kana_ipa(s + seq![q, c]) == kana_ipa(s)
            + syllabary_reading(to_hiragana(c))->0,
{
    let u = seq![q, c];
    let t = s + u;
    let n = s.len() as int;
    lemma_table_matches_syllabary(to_hiragana(c));
    assert(small_y_vowel('っ') is None);
    assert(digraph_onset('っ') is None);
    assert(q != 'ー') by {
        assert(to_hiragana('ー') == 'ー');
    }
    assert(c != 'ー') by {
        assert(to_hiragana('ー') == 'ー');
    }
    if s.len() > 0 {
        assert(digraph(s.last(), u[0]) is None);
    }
    lemma_split_from(s, u, 0, seq![]);
    assert(t[n] == q && t[n + 1] == c);
    assert(digraph(q, c) is None);
    reveal_strlit("");
    reveal_strlit("k");
    reveal_strlit("s");
    reveal_strlit("t");
    reveal_strlit("p");
    reveal_strlit("b");
    reveal_strlit("d");
    reveal_strlit("g");
    let x = kana_ipa(s);
    if doubled_consonant(to_hiragana(c)) is Some {
        assert(sokuon_table(to_hiragana(c)) == doubled_consonant(to_hiragana(c))->0);
        assert(sokuon_table(to_hiragana(c)).len() > 0);
        let y = x.push(sokuon_table(to_hiragana(c)));
        assert(single_step(t, n, x) == y);
        assert(single_step(t, n + 1, y) == y + mono_table(to_hiragana(c)));
        assert(kana_ipa_from(t, n + 2, y + mono_table(to_hiragana(c))) == y + mono_table(to_hiragana(c)));
        assert(kana_ipa_from(t, n + 1, y) == kana_ipa_from(t, n + 2, single_step(t, n + 1, y)));
        assert(kana_ipa_from(t, n, x) == kana_ipa_from(t, n + 1, single_step(t, n, x)));
        assert(kana_ipa(t) == kana_ipa_from(t, n, x));
        assert(y =~= x + seq![doubled_consonant(to_hiragana(c))->0]);
    } else {
        assert(sokuon_table(to_hiragana(c)).len() == 0);
        assert(single_step(t, n, x) == x);
        assert(single_step(t, n + 1, x) == x + mono_table(to_hiragana(c)));
        assert(kana_ipa_from(t, n + 2, x + mono_table(to_hiragana(c))) == x + mono_table(to_hiragana(c)));
        assert(kana_ipa_from(t, n + 1, x) == kana_ipa_from(t, n + 2, single_step(t, n + 1, x)));
        assert(kana_ipa_from(t, n, x) == kana_ipa_from(t, n + 1, single_step(t, n, x)));
        assert(kana_ipa(t) == kana_ipa_from(t, n, x));
    }
}

/// The sound each lowercase ASCII letter stands for when a word is spelt
/// out letter by letter.
pub open spec fn spelled_letter(c: char) -> Seq<char> {
    match c {
        'a' => "æ"@,
        'b' => "b"@,
        'c' => "k"@,
        'd' => "d"@,
        'e' => "ɛ"@,
        'f' => "f"@,
        'g' => "g"@,
        'h' => "h"@,
        'i' => "ɪ"@,
        'j' => "dʒ"@,
        'k' => "k"@,
        'l' => "l"@,
        'm' => "m"@,
        'n' => "n"@,
        'o' => "ɔ"@,
        'p' => "p"@,
        'q' => "k"@,
        'r' => "ɹ"@,
        's' => "s"@,
        't' => "t"@,
        'u' => "ʌ"@,
        'v' => "v"@,
        'w' => "w"@,
        'x' => "ks"@,
        'y' => "j"@,
        'z' => "z"@,
        _ => ""@,
    }
}

proof fn lemma_letter_matches(c: char)
    requires
        'a' <= c <= 'z',
    ensures
        letter_ipa(c) == spelled_letter(c),
        letter_ipa(c).len() > 0,
{
    reveal_strlit("b");
    reveal_strlit("d");
    reveal_strlit("dʒ");
    reveal_strlit("f");
    reveal_strlit("g");
    reveal_strlit("h");
    reveal_strlit("j");
    reveal_strlit("k");
    reveal_strlit("ks");
    reveal_strlit("l");
    reveal_strlit("m");
    reveal_strlit("n");
    reveal_strlit("p");
    reveal_strlit("s");
    reveal_strlit("t");
    reveal_strlit("v");
    reveal_strlit("w");
    reveal_strlit("z");
    reveal_strlit("æ");
    reveal_strlit("ɔ");
    reveal_strlit("ɛ");
    reveal_strlit("ɪ");
    reveal_strlit("ɹ");
    reveal_strlit("ʌ");
}

/// A word outside the dictionary, made of lowercase ASCII letters, reads
/// letter by letter: one phoneme per letter, the letter's own sound.
pub proof fn lemma_english_spelled_out(w: Seq<char>)
    requires
        english_dict(w) is None,
        forall|k: int| 0 <= k < w.len() ==> 'a' <= #[trigger] w[k] <= 'z' && is_alpha(w[k]),
    ensures
        english_ipa(w) == w.map_values(|c: char| spelled_letter(c)),
{
    lemma_grapheme_letters(w);
}

proof fn lemma_grapheme_letters(w: Seq<char>)
    requires
        forall|k: int| 0 <= k < w.len() ==> 'a' <= #[trigger] w[k] <= 'z' && is_alpha(w[k]),
    ensures
        grapheme_fallback(w) == w.map_values(|c: char| spelled_letter(c)),
    decreases w.len(),
{
    if w.len() > 0 {
        let p = w.drop_last();
        assert forall|k: int| 0 <= k < p.len() implies 'a' <= #[trigger] p[k] <= 'z' && is_alpha(p[k]) by {
            assert(p[k] == w[k]);
        }
        lemma_grapheme_letters(p);
        assert(w.last() == w[w.len() - 1]);
        lemma_letter_matches(w.last());
        assert(w.map_values(|c: char| spelled_letter(c)) =~= p.map_values(|c: char| spelled_letter(c)).push(
            spelled_letter(w.last()),
        ));
    } else {
        assert(w.map_values(|c: char| spelled_letter(c)) =~= seq![]);
    }
}

} // verus!
