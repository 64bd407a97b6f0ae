//! Honesty Gate — programmatic interceptor that prevents the LLM from issuing
//! false praise when the deterministic score does not support it.
//!
//! | Score range   | Allowed sentiment       |
//! |---------------|-------------------------|
//! | 0 – 49        | corrective only         |
//! | 50 – 74       | neutral / constructive  |
//! | 75 – 100      | praise is acceptable    |
//!
//! If the LLM text contains banned praise tokens for its score bucket, the
//! entire response is replaced by a deterministic fallback template.

use vstd::prelude::*;
use crate::text::{
    chars_of, contains, int_decimal, int_to_chars, lowercase, push_str, seq_contains,
    string_from_chars, to_lowercase,
};

verus! {

/// Outcome of the honesty check.
#[derive(Debug, PartialEq, Eq, Structural)]
pub enum GateVerdict {
    /// LLM output passes — returned unchanged.
    Pass,
    /// LLM output fails the honesty check — a fallback was applied.
    FallbackApplied,
}

/// Praise that is not acceptable below a score of 75 (Portuguese and
/// English, since the LLM may mix languages).
pub open spec fn high_praise_tokens() -> Seq<Seq<char>> {
    seq![
        "perfeito"@, "excelente"@, "perfeita"@, "parabéns"@, "incrível"@, "ótimo"@, "muito bem"@,
        "perfeição"@, "perfect"@, "excellent"@, "amazing"@, "great job"@, "well done"@,
        "outstanding"@, "flawless"@,
    ]
}

/// Mid-tier praise that is not acceptable below a score of 50.
pub open spec fn mid_praise_tokens() -> Seq<Seq<char>> {
    seq![
        "bom trabalho"@, "quase lá"@, "quase perfeito"@, "bom"@, "good job"@, "nearly there"@,
        "almost perfect"@,
    ]
}

/// Some token of `tokens` occurs in `hay`.
pub open spec fn contains_any(hay: Seq<char>, tokens: Seq<Seq<char>>) -> bool {
    exists|i: int| 0 <= i < tokens.len() && seq_contains(hay, #[trigger] tokens[i])
}

/// The (lowercased) feedback claims more praise than `score` supports:
/// below 50 any praise, from 50 to 74 high praise, from 75 on nothing.
pub open spec fn is_dishonest(score: int, lower: Seq<char>) -> bool {
    if score < 50 {
        contains_any(lower, high_praise_tokens()) || contains_any(lower, mid_praise_tokens())
    } else if score < 75 {
        contains_any(lower, high_praise_tokens())
    } else {
        false
    }
}

/// The deterministic feedback that replaces dishonest LLM output, calibrated
/// to the score bucket.
pub open spec fn fallback_text(score: int, word: Seq<char>, reading: Seq<char>) -> Seq<char> {
    if score < 30 {
        "A pronúncia registrada está muito distante de **"@ + word + "** ("@ + reading
            + "). Tente praticar cada sílaba individualmente em voz alta antes de gravar. Score: "@
            + int_decimal(score) + "/100."@
    } else if score < 50 {
        "Há diferenças significativas em relação a **"@ + word + "** ("@ + reading
            + "). Preste atenção à sequência de sons e ao ritmo da palavra. Score: "@
            + int_decimal(score) + "/100."@
    } else {
        "Sua pronúncia de **"@ + word + "** ("@ + reading
            + ") está na direção certa, mas ainda precisa de ajustes. Concentre-se na clareza de cada vogal e na duração das sílabas. Score: "@
            + int_decimal(score) + "/100."@
    }
}

fn high_praise_list() -> (r: Vec<&'static str>)
    ensures
        r@.map_values(|s: &str| s@) == high_praise_tokens(),
{
    let r: Vec<&'static str> = vec![
        "perfeito", "excelente", "perfeita", "parabéns", "incrível", "ótimo", "muito bem",
        "perfeição", "perfect", "excellent", "amazing", "great job", "well done", "outstanding",
        "flawless",
    ];
    assert(r@.map_values(|s: &str| s@) =~= high_praise_tokens());
    r
}

fn mid_praise_list() -> (r: Vec<&'static str>)
    ensures
        r@.map_values(|s: &str| s@) == mid_praise_tokens(),
{
    let r: Vec<&'static str> = vec![
        "bom trabalho", "quase lá", "quase perfeito", "bom", "good job", "nearly there",
        "almost perfect",
    ];
    assert(r@.map_values(|s: &str| s@) =~= mid_praise_tokens());
    r
}

/// Whether some token of `tokens` occurs in `hay`.
fn contains_any_exec(hay: &Vec<char>, tokens: &Vec<&'static str>) -> (r: bool)
    ensures
        r == contains_any(hay@, tokens@.map_values(|s: &str| s@)),
{
    let ghost toks = tokens@.map_values(|s: &str| s@);
    let mut i: usize = 0;
    while i < tokens.len()
        invariant
            i <= tokens.len(),
            toks == tokens@.map_values(|s: &str| s@),
            forall|j: int| 0 <= j < i ==> !seq_contains(hay@, #[trigger] toks[j]),
        decreases tokens.len() - i,
    {
        let needle = chars_of(tokens[i]);
        if contains(hay, &needle) {
            assert(seq_contains(hay@, toks[i as int]));
            return true;
        }
        i += 1;
    }
    false
}

/// Builds a deterministic fallback feedback message calibrated to the score
/// bucket.
fn build_fallback(score: i32, word: &str, reading: &str) -> (r: String)
    ensures
        r@ == fallback_text(score as int, word@, reading@),
{
    let mut v: Vec<char> = Vec::new();
    if score < 30 {
        push_str(&mut v, "A pronúncia registrada está muito distante de **");
        push_str(&mut v, word);
        push_str(&mut v, "** (");
        push_str(&mut v, reading);
        push_str(&mut v, "). Tente praticar cada sílaba individualmente em voz alta antes de gravar. Score: ");
    } else if score < 50 {
        push_str(&mut v, "Há diferenças significativas em relação a **");
        push_str(&mut v, word);
        push_str(&mut v, "** (");
        push_str(&mut v, reading);
        push_str(&mut v, "). Preste atenção à sequência de sons e ao ritmo da palavra. Score: ");
    } else {
        push_str(&mut v, "Sua pronúncia de **");
        push_str(&mut v, word);
        push_str(&mut v, "** (");
        push_str(&mut v, reading);
        push_str(&mut v, ") está na direção certa, mas ainda precisa de ajustes. Concentre-se na clareza de cada vogal e na duração das sílabas. Score: ");
    }
    let mut digits = int_to_chars(score as i64);
    v.append(&mut digits);
    push_str(&mut v, "/100.");
    string_from_chars(&v)
}

/// Applies the Honesty Gate to an LLM-generated feedback string.
///
/// * `score`   – The deterministic similarity score, in whole points (0 – 100).
/// * `text`    – The raw LLM response text.
/// * `word`    – The target vocabulary word (used in the fallback template).
/// * `reading` – The reading of the word (used in the fallback template).
///
/// Returns the text unchanged, marked as passing, when its praise is
/// supported by the score; otherwise the fallback template, marked as
/// replaced.
pub fn validate_feedback(score: i32, text: &str, word: &str, reading: &str) -> (r: (String, GateVerdict))
    ensures
        !is_dishonest(score as int, lowercase(text@)) ==> r.0@ == text@ && r.1 == GateVerdict::Pass,
        is_dishonest(score as int, lowercase(text@)) ==> r.0@ == fallback_text(score as int, word@, reading@)
            && r.1 == GateVerdict::FallbackApplied,
{
    let lower_s = to_lowercase(text);
    let lower = chars_of(lower_s.as_str());
    let high = high_praise_list();
    let mid = mid_praise_list();
    let contains_high_praise = contains_any_exec(&lower, &high);
    let contains_mid_praise = contains_any_exec(&lower, &mid);
    let is_dishonest = if score < 50 {
        contains_high_praise || contains_mid_praise
    } else if score < 75 {
        contains_high_praise
    } else {
        false
    };
    if !is_dishonest {
        return (text.to_owned(), GateVerdict::Pass);
    }
    (build_fallback(score, word, reading), GateVerdict::FallbackApplied)
}

/// From a score of 75 on, praise is earned: every text passes.
pub proof fn lemma_high_scores_always_pass(score: int, lower: Seq<char>)
    requires
        score >= 75,
    ensures
        !is_dishonest(score, lower),
{
}

/// A text let through at some score is let through at every
/// higher score: raising the score never makes feedback dishonest.
pub proof fn lemma_gate_monotonic(score: int, higher: int, lower: Seq<char>)
    requires
        score <= higher,
        !is_dishonest(score, lower),
    ensures
        !is_dishonest(higher, lower),
{
}

/// Feedback without any listed praise token passes at every score.
pub proof fn lemma_praise_free_text_passes(score: int, lower: Seq<char>)
    requires
        !contains_any(lower, high_praise_tokens()),
        !contains_any(lower, mid_praise_tokens()),
    ensures
        !is_dishonest(score, lower),
{
}

/// Each listed praise token, anywhere in the lowercased feedback, makes it
/// dishonest where its tier forbids it: the high praise below 75, the
/// mid-tier praise below 50. So `excellent pronunciation!` at a score of 20
/// is replaced by the fallback.
pub proof fn lemma_listed_praise_is_dishonest(score: int, lower: Seq<char>, t: Seq<char>)
    requires
        seq_contains(lower, t),
    ensures
        score < 75 && (
            t == "perfeito"@ || t == "excelente"@ || t == "perfeita"@ || t == "parabéns"@ ||
            t == "incrível"@ || t == "ótimo"@ || t == "muito bem"@ || t == "perfeição"@ ||
            t == "perfect"@ || t == "excellent"@ || t == "amazing"@ || t == "great job"@ ||
            t == "well done"@ || t == "outstanding"@ || t == "flawless"@
        ) ==> is_dishonest(score, lower),
        score < 50 && (
            t == "bom trabalho"@ || t == "quase lá"@ || t == "quase perfeito"@ || t == "bom"@ ||
            t == "good job"@ || t == "nearly there"@ || t == "almost perfect"@
        ) ==> is_dishonest(score, lower),
{
    if t == "perfeito"@ { assert(high_praise_tokens()[0] == t); assert(seq_contains(lower, high_praise_tokens()[0])); }
    if t == "excelente"@ { assert(high_praise_tokens()[1] == t); assert(seq_contains(lower, high_praise_tokens()[1])); }
    if t == "perfeita"@ { assert(high_praise_tokens()[2] == t); assert(seq_contains(lower, high_praise_tokens()[2])); }
    if t == "parabéns"@ { assert(high_praise_tokens()[3] == t); assert(seq_contains(lower, high_praise_tokens()[3])); }
    if t == "incrível"@ { assert(high_praise_tokens()[4] == t); assert(seq_contains(lower, high_praise_tokens()[4])); }
    if t == "ótimo"@ { assert(high_praise_tokens()[5] == t); assert(seq_contains(lower, high_praise_tokens()[5])); }
    if t == "muito bem"@ { assert(high_praise_tokens()[6] == t); assert(seq_contains(lower, high_praise_tokens()[6])); }
    if t == "perfeição"@ { assert(high_praise_tokens()[7] == t); assert(seq_contains(lower, high_praise_tokens()[7])); }
    if t == "perfect"@ { assert(high_praise_tokens()[8] == t); assert(seq_contains(lower, high_praise_tokens()[8])); }
    if t == "excellent"@ { assert(high_praise_tokens()[9] == t); assert(seq_contains(lower, high_praise_tokens()[9])); }
    if t == "amazing"@ { assert(high_praise_tokens()[10] == t); assert(seq_contains(lower, high_praise_tokens()[10])); }
    if t == "great job"@ { assert(high_praise_tokens()[11] == t); assert(seq_contains(lower, high_praise_tokens()[11])); }
    if t == "well done"@ { assert(high_praise_tokens()[12] == t); assert(seq_contains(lower, high_praise_tokens()[12])); }
    if t == "outstanding"@ { assert(high_praise_tokens()[13] == t); assert(seq_contains(lower, high_praise_tokens()[13])); }
    if t == "flawless"@ { assert(high_praise_tokens()[14] == t); assert(seq_contains(lower, high_praise_tokens()[14])); }
    if t == "bom trabalho"@ { assert(mid_praise_tokens()[0] == t); assert(seq_contains(lower, mid_praise_tokens()[0])); }
    if t == "quase lá"@ { assert(mid_praise_tokens()[1] == t); assert(seq_contains(lower, mid_praise_tokens()[1])); }
    if t == "quase perfeito"@ { assert(mid_praise_tokens()[2] == t); assert(seq_contains(lower, mid_praise_tokens()[2])); }
    if t == "bom"@ { assert(mid_praise_tokens()[3] == t); assert(seq_contains(lower, mid_praise_tokens()[3])); }
    if t == "good job"@ { assert(mid_praise_tokens()[4] == t); assert(seq_contains(lower, mid_praise_tokens()[4])); }
    if t == "nearly there"@ { assert(mid_praise_tokens()[5] == t); assert(seq_contains(lower, mid_praise_tokens()[5])); }
    if t == "almost perfect"@ { assert(mid_praise_tokens()[6] == t); assert(seq_contains(lower, mid_praise_tokens()[6])); }
}

} // verus!
