//! Phonemic edit distance: Levenshtein distance over sequences of IPA
//! phoneme tokens.

use vstd::prelude::*;
use crate::scoring::edit_distance::{
    edit_distance, lemma_distance_at_most_longer, lemma_distance_step,
    lemma_distance_zero_iff_equal, max_nat,
};

verus! {

/// The phoneme tokens of a slice, each as its sequence of characters.
pub open spec fn phoneme_views(v: Seq<String>) -> Seq<Seq<char>> {
    v.map_values(|s: String| s@)
}

/// Computes the Levenshtein edit distance between two slices of phoneme
/// tokens; two tokens match when they hold the same characters.
pub fn distance(a: &[String], b: &[String]) -> (d: usize)
    ensures
        d == edit_distance(phoneme_views(a@), phoneme_views(b@)),
{
    let ghost va = phoneme_views(a@);
    let ghost vb = phoneme_views(b@);
    let m = a.len();
    let n = b.len();
    if m == 0 {
        return n;
    }
    if n == 0 {
        return m;
    }
    let mut prev: Vec<usize> = Vec::new();
    prev.push(0);
    let mut k: usize = 0;
    while k < n
        invariant
            k <= n,
            n == b@.len(),
            prev.len() == k + 1,
            forall|j: int| 0 <= j <= k ==> prev@[j] == j,
        decreases n - k,
    {
        k += 1;
        prev.push(k);
    }
    assert forall|j: int| 0 <= j <= n implies prev@[j] == edit_distance(va.take(0), vb.take(j)) by {
        assert(va.take(0).len() == 0);
    }
    let mut i: usize = 0;
    while i < m
        invariant
            i <= m,
            m == a@.len(),
            n == b@.len(),
            va == phoneme_views(a@),
            vb == phoneme_views(b@),
            prev.len() == n + 1,
            forall|j: int| 0 <= j <= n ==> prev@[j] == edit_distance(va.take(i as int), vb.take(j)),
        decreases m - i,
    {
        let mut cur: Vec<usize> = Vec::new();
        cur.push(i + 1);
        assert(vb.take(0).len() == 0);
        let mut j: usize = 0;
        while j < n
            invariant
                i < m,
                j <= n,
                m == a@.len(),
                n == b@.len(),
                va == phoneme_views(a@),
                vb == phoneme_views(b@),
                prev.len() == n + 1,
                forall|jj: int| 0 <= jj <= n ==> prev@[jj] == edit_distance(va.take(i as int), vb.take(jj)),
                cur.len() == j + 1,
                forall|jj: int| 0 <= jj <= j ==> cur@[jj] == edit_distance(va.take(i + 1), vb.take(jj)),
            decreases n - j,
        {
            proof {
                lemma_distance_step(va, vb, i as int, j as int);
                lemma_distance_at_most_longer(va.take(i as int), vb.take(j as int));
                lemma_distance_at_most_longer(va.take(i + 1), vb.take(j + 1));
            }
            let same = a[i] == b[j];
            assert(same == (va[i as int] == vb[j as int]));
            let cost: usize = if same { 0 } else { 1 };
            let del = prev[j + 1].saturating_add(1);
            let ins = cur[j].saturating_add(1);
            let sub = prev[j] + cost;
            let best = if del <= ins { del } else { ins };
            let best = if best <= sub { best } else { sub };
            cur.push(best);
            j += 1;
        }
        prev = cur;
        i += 1;
    }
    assert(va.take(m as int) =~= va);
    assert(vb.take(n as int) =~= vb);
    prev[n]
}

/// The two numbers behind the normalised phoneme similarity: the edit
/// distance and the length of the longer sequence. The similarity is
/// `1 - distance / max_len`, or exactly 1 when both are empty.
pub fn similarity_parts(a: &[String], b: &[String]) -> (r: (usize, usize))
    ensures
        r.0 == edit_distance(phoneme_views(a@), phoneme_views(b@)),
        r.1 == max_nat(a@.len(), b@.len()),
        r.0 <= r.1,
        (r.0 == 0) <==> (phoneme_views(a@) == phoneme_views(b@)),
{
    let max_len = if a.len() >= b.len() { a.len() } else { b.len() };
    let d = distance(a, b);
    proof {
        lemma_distance_at_most_longer(phoneme_views(a@), phoneme_views(b@));
        lemma_distance_zero_iff_equal(phoneme_views(a@), phoneme_views(b@));
    }
    (d, max_len)
}

} // verus!
