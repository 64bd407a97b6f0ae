//! Normalized Levenshtein distance for pronunciation scoring over the
//! characters of the target and the transcript.

use vstd::prelude::*;
use crate::scoring::edit_distance::{edit_distance, lemma_distance_at_most_longer, lemma_distance_step};
use crate::text::{chars_of, char_from_u32, lowercase, string_from_chars, to_lowercase, trim, trim_chars};
use crate::scoring::edit_distance::{lemma_distance_symmetric, lemma_distance_zero_iff_equal, max_nat};

verus! {

/// Levenshtein distance between two character vectors.
pub fn char_distance(a: &Vec<char>, b: &Vec<char>) -> (d: usize)
    ensures
        d == edit_distance(a@, b@),
{
    let m = a.len();
    let n = b.len();
    if m == 0 {
        return n;
    }
    if n == 0 {
        return m;
    }
    let mut prev: Vec<usize> = Vec::new();
    prev.push(0);
    let mut k: usize = 0;
    while k < n
        invariant
            k <= n,
            n == b.len(),
            prev.len() == k + 1,
            forall|j: int| 0 <= j <= k ==> prev@[j] == j,
        decreases n - k,
    {
        k += 1;
        prev.push(k);
    }
    assert forall|j: int| 0 <= j <= n implies prev@[j] == edit_distance(a@.take(0), b@.take(j)) by {
        assert(a@.take(0).len() == 0);
    }
    let mut i: usize = 0;
    while i < m
        invariant
            i <= m,
            m == a.len(),
            n == b.len(),
            prev.len() == n + 1,
            forall|j: int| 0 <= j <= n ==> prev@[j] == edit_distance(a@.take(i as int), b@.take(j)),
        decreases m - i,
    {
        let ai = a[i];
        let mut cur: Vec<usize> = Vec::new();
        cur.push(i + 1);
        assert(b@.take(0).len() == 0);
        let mut j: usize = 0;
        while j < n
            invariant
                i < m,
                j <= n,
                m == a.len(),
                n == b.len(),
                ai == a@[i as int],
                prev.len() == n + 1,
                forall|jj: int| 0 <= jj <= n ==> prev@[jj] == edit_distance(a@.take(i as int), b@.take(jj)),
                cur.len() == j + 1,
                forall|jj: int| 0 <= jj <= j ==> cur@[jj] == edit_distance(a@.take(i + 1), b@.take(jj)),
            decreases n - j,
        {
            proof {
                lemma_distance_step(a@, b@, i as int, j as int);
                lemma_distance_at_most_longer(a@.take(i as int), b@.take(j as int));
                lemma_distance_at_most_longer(a@.take(i + 1), b@.take(j + 1));
            }
            let cost: usize = if ai == b[j] { 0 } else { 1 };
            let del = prev[j + 1].saturating_add(1);
            let ins = cur[j].saturating_add(1);
            let sub = prev[j] + cost;
            let best = if del <= ins { del } else { ins };
            let best = if best <= sub { best } else { sub };
            cur.push(best);
            j += 1;
        }
        prev = cur;
        i += 1;
    }
    assert(a@.take(m as int) =~= a@);
    assert(b@.take(n as int) =~= b@);
    prev[n]
}

/// Computes the Levenshtein edit distance between two strings, counted in
/// characters.
pub fn distance(a: &str, b: &str) -> (d: usize)
    ensures
        d == edit_distance(a@, b@),
{
    let ac = chars_of(a);
    let bc = chars_of(b);
    char_distance(&ac, &bc)
}


// ─── Normalisation ──────────────────────────────────────────────────────────

/// Katakana letters `U+30A1..=U+30F6`, which have a Hiragana counterpart
/// exactly `0x60` code points lower.
pub open spec fn is_katakana_letter(c: char) -> bool {
    0x30A1 <= (c as u32) && (c as u32) <= 0x30F6
}

/// The Hiragana counterpart of a Katakana letter; any other character is
/// returned unchanged.
pub open spec fn to_hiragana(c: char) -> char {
    if is_katakana_letter(c) {
        ((c as u32) - 0x60) as char
    } else {
        c
    }
}

/// Hiragana letters `U+3041..=U+3096`, which have a Katakana counterpart
/// exactly `0x60` code points higher.
pub open spec fn is_hiragana_letter(c: char) -> bool {
    0x3041 <= (c as u32) && (c as u32) <= 0x3096
}

/// The Katakana counterpart of a Hiragana letter; any other character is
/// returned unchanged.
pub open spec fn to_katakana(c: char) -> char {
    if is_hiragana_letter(c) {
        ((c as u32) + 0x60) as char
    } else {
        c
    }
}

/// Folding facts about a single character: both foldings land on the same
/// Hiragana form, and the long-vowel mark is left alone.
pub proof fn lemma_fold_agree(c: char)
    ensures
        to_hiragana(to_katakana(c)) == to_hiragana(to_hiragana(c)),
        !is_katakana_letter(to_hiragana(c)),
        is_katakana_letter(to_katakana(c)) <==> (is_hiragana_letter(c) || is_katakana_letter(c)),
        (to_katakana(c) == 'ー') <==> (c == 'ー'),
        (to_hiragana(c) == 'ー') <==> (c == 'ー'),
{
    if is_hiragana_letter(c) {
        let u = ((c as u32) + 0x60) as u32;
        assert(((u as char) as u32) == u);
    }
    if is_katakana_letter(c) {
        let u = ((c as u32) - 0x60) as u32;
        assert(((u as char) as u32) == u);
    }
}

/// Japanese and Western punctuation that transcripts may carry as voice
/// inflection artifacts and that comparison ignores.
pub open spec fn is_stripped_punctuation(c: char) -> bool {
    ||| c == '。' ||| c == '、' ||| c == '！' ||| c == '？' ||| c == '「' ||| c == '」'
    ||| c == '『' ||| c == '』' ||| c == '・' ||| c == '…' ||| c == '〜' ||| c == '—'
    ||| c == '–' ||| c == '!' ||| c == '?' ||| c == '.' ||| c == ',' ||| c == ':'
    ||| c == ';' ||| c == '"' ||| c == '\'' ||| c == '(' ||| c == ')' ||| c == '-'
}

/// Drops stripped punctuation and maps Katakana letters to Hiragana, character
/// by character.
pub open spec fn fold_for_compare(s: Seq<char>) -> Seq<char>
    decreases s.len(),
{
    if s.len() == 0 {
        s
    } else {
        let rest = fold_for_compare(s.drop_last());
        if is_stripped_punctuation(s.last()) {
            rest
        } else {
            rest.push(to_hiragana(s.last()))
        }
    }
}

/// The comparison form of a string: trimmed, lowercased, without stripped
/// punctuation, Katakana folded to Hiragana.
pub open spec fn normalized_for_compare(s: Seq<char>) -> Seq<char> {
    fold_for_compare(lowercase(trim(s)))
}

/// No stripped punctuation and no Katakana letter survive normalisation.
pub proof fn lemma_fold_clean(s: Seq<char>)
    ensures
        forall|k: int| 0 <= k < fold_for_compare(s).len() ==> {
            &&& !is_stripped_punctuation(#[trigger] fold_for_compare(s)[k])
            &&& !is_katakana_letter(fold_for_compare(s)[k])
        },
    decreases s.len(),
{
    if s.len() > 0 {
        lemma_fold_clean(s.drop_last());
        let c = s.last();
        let rest = fold_for_compare(s.drop_last());
        if is_katakana_letter(c) {
            let u = ((c as u32) - 0x60) as u32;
            assert(((u as char) as u32) == u);
        }
        if !is_stripped_punctuation(c) {
            let t = rest.push(to_hiragana(c));
            assert forall|k: int| 0 <= k < t.len() implies {
                &&& !is_stripped_punctuation(#[trigger] t[k])
                &&& !is_katakana_letter(t[k])
            } by {
                if k < rest.len() {
                    assert(t[k] == rest[k]);
                }
            }
        }
    }
}

/// Folding twice is folding once.
pub proof fn lemma_fold_idempotent(s: Seq<char>)
    ensures
        fold_for_compare(fold_for_compare(s)) == fold_for_compare(s),
    decreases s.len(),
{
    if s.len() > 0 {
        lemma_fold_idempotent(s.drop_last());
        let rest = fold_for_compare(s.drop_last());
        if !is_stripped_punctuation(s.last()) {
            let t = rest.push(to_hiragana(s.last()));
            assert(t.drop_last() =~= rest);
            lemma_fold_clean(s.drop_last());
        }
    }
}

/// Maps Katakana letters to their Hiragana counterpart.
pub fn katakana_to_hiragana(c: char) -> (r: char)
    ensures
        r == to_hiragana(c),
{
    let cp = c as u32;
    if 0x30A1 <= cp && cp <= 0x30F6 {
        match char_from_u32(cp - 0x60) {
            Some(h) => h,
            None => c,
        }
    } else {
        c
    }
}

/// Whether `c` is punctuation that comparison ignores.
fn is_strip_char(c: char) -> (r: bool)
    ensures
        r == is_stripped_punctuation(c),
{
    c == '。' || c == '、' || c == '！' || c == '？' || c == '「' || c == '」'
    || c == '『' || c == '』' || c == '・' || c == '…' || c == '〜' || c == '—'
    || c == '–' || c == '!' || c == '?' || c == '.' || c == ',' || c == ':'
    || c == ';' || c == '"' || c == '\'' || c == '(' || c == ')' || c == '-'
}

/// Strips Japanese and Western punctuation, and normalises Katakana to
/// Hiragana before comparison so that voice-inflection artifacts (e.g.
/// "ありがとう！") and kana variation (e.g. "キップ" vs "きっぷ") do not
/// penalise matches.
pub fn normalize_for_compare(s: &str) -> (r: String)
    ensures
        r@ == normalized_for_compare(s@),
{
    let chars = chars_of(s);
    let trimmed = trim_chars(&chars);
    let trimmed_str = string_from_chars(&trimmed);
    let lower_str = to_lowercase(trimmed_str.as_str());
    let lower = chars_of(lower_str.as_str());
    let mut out: Vec<char> = Vec::new();
    let mut i: usize = 0;
    while i < lower.len()
        invariant
            i <= lower.len(),
            out@ == fold_for_compare(lower@.take(i as int)),
        decreases lower.len() - i,
    {
        let c = lower[i];
        proof {
            assert(lower@.take(i + 1).drop_last() =~= lower@.take(i as int));
        }
        if !is_strip_char(c) {
            out.push(katakana_to_hiragana(c));
        }
        i += 1;
    }
    assert(lower@.take(lower.len() as int) =~= lower@);
    string_from_chars(&out)
}

/// The two numbers behind the normalised similarity of a transcript to its
/// target: the edit distance between their comparison forms, and the length
/// of the longer one. The similarity is `1 - distance / max_len`, or exactly
/// 1 when both forms are empty.
pub fn similarity_parts(target: &str, spoken: &str) -> (r: (usize, usize))
    ensures
        r.0 == edit_distance(normalized_for_compare(target@), normalized_for_compare(spoken@)),
        r.1 == max_nat(normalized_for_compare(target@).len(), normalized_for_compare(spoken@).len()),
        r.0 <= r.1,
        (r.0 == 0) <==> (normalized_for_compare(target@) == normalized_for_compare(spoken@)),
{
    let t = normalize_for_compare(target);
    let s = normalize_for_compare(spoken);
    let tc = chars_of(t.as_str());
    let sc = chars_of(s.as_str());
    let max_len = if tc.len() >= sc.len() { tc.len() } else { sc.len() };
    let d = char_distance(&tc, &sc);
    proof {
        lemma_distance_at_most_longer(tc@, sc@);
        lemma_distance_zero_iff_equal(tc@, sc@);
    }
    (d, max_len)
}

/// Punctuation appended to a transcript does not change its comparison
/// form: `ありがとう！` compares as `ありがとう`.
pub proof fn lemma_fold_ignores_appended_punctuation(s: Seq<char>, p: Seq<char>)
    requires
        forall|k: int| 0 <= k < p.len() ==> is_stripped_punctuation(#[trigger] p[k]),
    ensures
        fold_for_compare(s + p) == fold_for_compare(s),
    decreases p.len(),
{
    if p.len() == 0 {
        assert(s + p =~= s);
    } else {
        assert((s + p).drop_last() =~= s + p.drop_last());
        assert((s + p).last() == p[p.len() - 1]);
        lemma_fold_ignores_appended_punctuation(s, p.drop_last());
    }
}

/// Writing a transcript's Hiragana letters in Katakana does not change its
/// comparison form: `アリガトウ` compares as `ありがとう`.
pub proof fn lemma_fold_ignores_kana_script(s: Seq<char>)
    ensures
        fold_for_compare(s.map_values(|c: char| to_katakana(c))) == fold_for_compare(s),
    decreases s.len(),
{
    if s.len() > 0 {
        let k = s.map_values(|c: char| to_katakana(c));
        assert(k.drop_last() =~= s.drop_last().map_values(|c: char| to_katakana(c)));
        lemma_fold_ignores_kana_script(s.drop_last());
        let c = s.last();
        lemma_fold_agree(c);
        assert(k.last() == to_katakana(c));
        if is_hiragana_letter(c) {
            let u = ((c as u32) + 0x60) as u32;
            assert(((u as char) as u32) == u);
            assert(!is_stripped_punctuation(c));
            assert(!is_stripped_punctuation(to_katakana(c)));
        }
        assert(to_hiragana(to_hiragana(c)) == to_hiragana(c)) by {
            if is_katakana_letter(c) {
                let u = ((c as u32) - 0x60) as u32;
                assert(((u as char) as u32) == u);
            }
        }
    }
}

/// The similarity does not depend on which text is the target: both of its
/// parts are the same with the texts swapped.
pub proof fn lemma_similarity_symmetric(target: Seq<char>, spoken: Seq<char>)
    ensures
        edit_distance(normalized_for_compare(target), normalized_for_compare(spoken))
            == edit_distance(normalized_for_compare(spoken), normalized_for_compare(target)),
        max_nat(normalized_for_compare(target).len(), normalized_for_compare(spoken).len())
            == max_nat(normalized_for_compare(spoken).len(), normalized_for_compare(target).len()),
{
    lemma_distance_symmetric(normalized_for_compare(target), normalized_for_compare(spoken));
}

/// Each punctuation mark that speech transcripts carry as voice inflection
/// (`。、！？「」『』・…〜—–` and `!?.,:;"'()-`) is ignored when comparing: it
/// leaves the comparison form of whatever it follows unchanged, so
/// `ありがとう？` compares as `ありがとう`. Any other character is kept, in its
/// Hiragana form.
pub proof fn lemma_fold_ignores_transcript_punctuation(s: Seq<char>, c: char)
    ensures
        (
            c == '。' || c == '、' || c == '！' || c == '？' || c == '「' || c == '」' ||
            c == '『' || c == '』' || c == '・' || c == '…' || c == '〜' || c == '—' ||
            c == '–' || c == '!' || c == '?' || c == '.' || c == ',' || c == ':' ||
            c == ';' || c == '"' || c == '\'' || c == '(' || c == ')' || c == '-'
        ) ==> fold_for_compare(s.push(c)) == fold_for_compare(s),
        !(
            c == '。' || c == '、' || c == '！' || c == '？' || c == '「' || c == '」' ||
            c == '『' || c == '』' || c == '・' || c == '…' || c == '〜' || c == '—' ||
            c == '–' || c == '!' || c == '?' || c == '.' || c == ',' || c == ':' ||
            c == ';' || c == '"' || c == '\'' || c == '(' || c == ')' || c == '-'
        ) ==> fold_for_compare(s.push(c)) == fold_for_compare(s).push(to_hiragana(c)),
{
    assert(s.push(c).drop_last() =~= s);
}

} // verus!
