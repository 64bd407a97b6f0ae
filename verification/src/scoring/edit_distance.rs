//! The Levenshtein edit distance as a mathematical function over sequences,
//! and the laws that make it a sound basis for similarity scores.

use vstd::prelude::*;

verus! {

/// The smallest of three naturals.
pub open spec fn min3(x: nat, y: nat, z: nat) -> nat {
    let xy = if x <= y { x } else { y };
    if xy <= z { xy } else { z }
}

/// The larger of two naturals.
pub open spec fn max_nat(x: nat, y: nat) -> nat {
    if x >= y { x } else { y }
}

/// Levenshtein distance: the least number of single-element insertions,
/// deletions and substitutions that turn `a` into `b`.
pub open spec fn edit_distance<T>(a: Seq<T>, b: Seq<T>) -> nat
    decreases a.len() + b.len(),
{
    if a.len() == 0 {
        b.len()
    } else if b.len() == 0 {
        a.len()
    } else {
        let cost: nat = if a.last() == b.last() { 0 } else { 1 };
        min3(
            edit_distance(a.drop_last(), b) + 1,
            edit_distance(a, b.drop_last()) + 1,
            edit_distance(a.drop_last(), b.drop_last()) + cost,
        )
    }
}

/// The distance never exceeds the length of the longer sequence, so a
/// similarity `1 - d / max_len` never falls below zero.
pub proof fn lemma_distance_at_most_longer<T>(a: Seq<T>, b: Seq<T>)
    ensures
        edit_distance(a, b) <= max_nat(a.len(), b.len()),
    decreases a.len() + b.len(),
{
    if a.len() > 0 && b.len() > 0 {
        lemma_distance_at_most_longer(a.drop_last(), b.drop_last());
    }
}

/// The distance is at least the difference of the lengths.
pub proof fn lemma_distance_at_least_length_gap<T>(a: Seq<T>, b: Seq<T>)
    ensures
        edit_distance(a, b) >= a.len() - b.len(),
        edit_distance(a, b) >= b.len() - a.len(),
    decreases a.len() + b.len(),
{
    if a.len() > 0 && b.len() > 0 {
        lemma_distance_at_least_length_gap(a.drop_last(), b);
        lemma_distance_at_least_length_gap(a, b.drop_last());
        lemma_distance_at_least_length_gap(a.drop_last(), b.drop_last());
    }
}

/// A sequence is at distance zero from itself, and only from itself: a
/// similarity of exactly 1 means an exact match.
pub proof fn lemma_distance_zero_iff_equal<T>(a: Seq<T>, b: Seq<T>)
    ensures
        (edit_distance(a, b) == 0) <==> (a == b),
    decreases a.len() + b.len(),
{
    if a.len() > 0 && b.len() > 0 {
        lemma_distance_zero_iff_equal(a.drop_last(), b.drop_last());
        if a == b {
            assert(a.drop_last() == b.drop_last());
        }
        if edit_distance(a, b) == 0 {
            assert(a.last() == b.last());
            assert(a =~= a.drop_last().push(a.last()));
            assert(b =~= b.drop_last().push(b.last()));
        }
    } else if a.len() == 0 && b.len() == 0 {
        assert(a =~= b);
    }
}

/// The distance does not depend on which sequence is the target.
pub proof fn lemma_distance_symmetric<T>(a: Seq<T>, b: Seq<T>)
    ensures
        edit_distance(a, b) == edit_distance(b, a),
    decreases a.len() + b.len(),
{
    if a.len() > 0 && b.len() > 0 {
        lemma_distance_symmetric(a.drop_last(), b);
        lemma_distance_symmetric(a, b.drop_last());
        lemma_distance_symmetric(a.drop_last(), b.drop_last());
    }
}

/// One step of the dynamic programme: the distance between prefixes of
/// lengths `i + 1` and `j + 1` from the three neighbouring prefix distances.
pub proof fn lemma_distance_step<T>(a: Seq<T>, b: Seq<T>, i: int, j: int)
    requires
        0 <= i < a.len(),
        0 <= j < b.len(),
    ensures
        edit_distance(a.take(i + 1), b.take(j + 1)) == min3(
            edit_distance(a.take(i), b.take(j + 1)) + 1,
            edit_distance(a.take(i + 1), b.take(j)) + 1,
            edit_distance(a.take(i), b.take(j)) + (if a[i] == b[j] { 0nat } else { 1nat }),
        ),
{
    assert(a.take(i + 1).drop_last() =~= a.take(i));
    assert(b.take(j + 1).drop_last() =~= b.take(j));
    assert(a.take(i + 1).last() == a[i]);
    assert(b.take(j + 1).last() == b[j]);
}

/// The triangle inequality: going from `a` to `c` by way of `b` never
/// takes fewer edits than going directly.
pub proof fn lemma_distance_triangle<T>(a: Seq<T>, b: Seq<T>, c: Seq<T>)
    ensures
        edit_distance(a, c) <= edit_distance(a, b) + edit_distance(b, c),
    decreases a.len() + b.len() + c.len(),
{
    if b.len() == 0 {
        lemma_distance_at_most_longer(a, c);
    } else if a.len() == 0 {
        lemma_distance_at_least_length_gap(b, c);
    } else if c.len() == 0 {
        lemma_distance_at_least_length_gap(a, b);
    } else {
        let a1 = a.drop_last();
        let b1 = b.drop_last();
        let c1 = c.drop_last();
        let dab = edit_distance(a, b);
        let dbc = edit_distance(b, c);
        if dab == edit_distance(a1, b) + 1 {
            lemma_distance_triangle(a1, b, c);
        } else if dbc == edit_distance(b, c1) + 1 {
            lemma_distance_triangle(a, b, c1);
        } else if dab == edit_distance(a, b1) + 1 {
            if dbc == edit_distance(b1, c) + 1 {
                lemma_distance_triangle(a, b1, c);
            } else {
                lemma_distance_triangle(a, b1, c1);
            }
        } else {
            if dbc == edit_distance(b1, c) + 1 {
                lemma_distance_triangle(a1, b1, c);
            } else {
                lemma_distance_triangle(a1, b1, c1);
            }
        }
    }
}

} // verus!
