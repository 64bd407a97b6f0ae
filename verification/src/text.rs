//! Character-level text helpers shared by the scoring, phonemization and
//! feedback modules: conversion between `&str`/`String` and character
//! vectors, substring search, whitespace trimming, lowercasing and decimal
//! rendering of integers.

use vstd::prelude::*;

verus! {

// ─── Specifications ─────────────────────────────────────────────────────────

/// `needle` occurs in `hay` starting at position `i`.
pub open spec fn occurs_at(hay: Seq<char>, needle: Seq<char>, i: int) -> bool {
    &&& 0 <= i
    &&& i + needle.len() <= hay.len()
    &&& hay.subrange(i, i + needle.len()) == needle
}

/// `needle` is a contiguous substring of `hay`.
pub open spec fn seq_contains(hay: Seq<char>, needle: Seq<char>) -> bool {
    exists|i: int| occurs_at(hay, needle, i)
}

/// Unicode `White_Space` property of a character, as `char::is_whitespace`
/// computes it.
pub uninterp spec fn is_white(c: char) -> bool;

/// Unicode `Alphabetic` property of a character, as `char::is_alphabetic`
/// computes it.
pub uninterp spec fn is_alpha(c: char) -> bool;

/// The Unicode lowercase mapping of a whole string, as `str::to_lowercase`
/// computes it.
pub uninterp spec fn lowercase(s: Seq<char>) -> Seq<char>;

/// `s` without its leading whitespace.
pub open spec fn trim_start(s: Seq<char>) -> Seq<char>
    decreases s.len(),
{
    if s.len() > 0 && is_white(s[0]) {
        trim_start(s.drop_first())
    } else {
        s
    }
}

/// `s` without its trailing whitespace.
pub open spec fn trim_end(s: Seq<char>) -> Seq<char>
    decreases s.len(),
{
    if s.len() > 0 && is_white(s.last()) {
        trim_end(s.drop_last())
    } else {
        s
    }
}

/// `s` without leading and trailing whitespace (what `str::trim` returns).
pub open spec fn trim(s: Seq<char>) -> Seq<char> {
    trim_end(trim_start(s))
}

/// The ASCII digit for `d` in `0..10`.
pub open spec fn digit_char(d: int) -> char {
    (48 + d) as char
}

/// Decimal digits of a natural number, most significant first, no leading zeros.
pub open spec fn nat_decimal(n: nat) -> Seq<char>
    decreases n,
{
    if n < 10 {
        seq![digit_char(n as int)]
    } else {
        nat_decimal(n / 10) + seq![digit_char((n % 10) as int)]
    }
}

/// Decimal rendering of an integer (`-` sign for negative values), as
/// `Display` for integers writes it.
pub open spec fn int_decimal(n: int) -> Seq<char> {
    if n < 0 {
        seq!['-'] + nat_decimal((-n) as nat)
    } else {
        nat_decimal(n as nat)
    }
}

/// The pieces of `s` between occurrences of `sep` (`str::split`): `n`
/// separators give `n + 1` pieces, empty ones included.
pub open spec fn split_on(s: Seq<char>, sep: char) -> Seq<Seq<char>>
    decreases s.len(),
{
    if s.len() == 0 {
        seq![seq![]]
    } else {
        let r = split_on(s.drop_last(), sep);
        if s.last() == sep {
            r.push(seq![])
        } else {
            r.update(r.len() - 1, r.last().push(s.last()))
        }
    }
}

/// The character sequences held by a vector of character vectors.
pub open spec fn vec_views(v: Seq<Vec<char>>) -> Seq<Seq<char>> {
    v.map_values(|x: Vec<char>| x@)
}

/// Position of the first `c` in `s` at or after `i`.
pub open spec fn find_from(s: Seq<char>, c: char, i: int) -> Option<int>
    decreases s.len() - i,
{
    if i < 0 || i >= s.len() {
        None
    } else if s[i] == c {
        Some(i)
    } else {
        find_from(s, c, i + 1)
    }
}

/// `split_on` always yields at least one piece.
pub proof fn lemma_split_nonempty(s: Seq<char>, sep: char)
    ensures
        split_on(s, sep).len() >= 1,
    decreases s.len(),
{
    if s.len() > 0 {
        lemma_split_nonempty(s.drop_last(), sep);
    }
}

// ─── Trusted items (std functions that vstd does not specify) ───────────────

/// `char::is_whitespace`: whether `c` has the Unicode `White_Space`
/// property. The contract names the result `is_white(c)` and claims nothing
/// more about which characters that is.
#[verifier::external_body]
pub fn char_is_whitespace(c: char) -> (r: bool)
    ensures
        r == is_white(c),
{
    c.is_whitespace()
}

/// `char::is_alphabetic`: whether `c` has the Unicode `Alphabetic`
/// property. The contract names the result `is_alpha(c)` and claims nothing
/// more about which characters that is.
#[verifier::external_body]
pub fn char_is_alphabetic(c: char) -> (r: bool)
    ensures
        r == is_alpha(c),
{
    c.is_alphabetic()
}

/// `str::to_lowercase`: the Unicode lowercase mapping of `s`. The contract
/// names the result `lowercase(s@)`; which characters it produces is left
/// unstated.
#[verifier::external_body]
pub fn to_lowercase(s: &str) -> (r: String)
    ensures
        r@ == lowercase(s@),
{
    s.to_lowercase()
}

/// `String::from_iter` over characters: the string made of exactly the
/// characters of `v`, in order.
#[verifier::external_body]
pub fn string_from_chars(v: &Vec<char>) -> (r: String)
    ensures
        r@ == v@,
{
    String::from_iter(v.iter())
}

/// `char::from_u32`: the character with scalar value `u`, or `None` when
/// `u` is a surrogate or above `0x10FFFF`.
#[verifier::external_body]
pub fn char_from_u32(u: u32) -> (r: Option<char>)
    ensures
        (u <= 0xD7FF || (0xE000 <= u && u <= 0x10FFFF)) ==> r == Some(u as char),
        !(u <= 0xD7FF || (0xE000 <= u && u <= 0x10FFFF)) ==> r is None,
{
    char::from_u32(u)
}

// ─── Verified helpers ───────────────────────────────────────────────────────

/// The characters of `s`, in order.
pub fn chars_of(s: &str) -> (r: Vec<char>)
    ensures
        r@ == s@,
{
    let mut r: Vec<char> = Vec::new();
    for c in it: s.chars()
        invariant
            r@ == it.seq().take(it.index() as int),
    {
        r.push(c);
    }
    r
}

/// Whether two strings hold the same characters.
pub fn str_eq(a: &str, b: &str) -> (r: bool)
    ensures
        r == (a@ == b@),
{
    let va = chars_of(a);
    let vb = chars_of(b);
    chars_eq(&va, &vb)
}

/// Whether two character vectors are equal.
pub fn chars_eq(a: &Vec<char>, b: &Vec<char>) -> (r: bool)
    ensures
        r == (a@ == b@),
{
    if a.len() != b.len() {
        return false;
    }
    let mut i: usize = 0;
    while i < a.len()
        invariant
            a.len() == b.len(),
            i <= a.len(),
            forall|k: int| 0 <= k < i ==> a@[k] == b@[k],
        decreases a.len() - i,
    {
        if a[i] != b[i] {
            return false;
        }
        i += 1;
    }
    assert(a@ =~= b@);
    true
}

/// Whether `needle` occurs in `hay` at position `i`.
fn occurs_at_exec(hay: &Vec<char>, needle: &Vec<char>, i: usize) -> (r: bool)
    requires
        i + needle.len() <= hay.len(),
    ensures
        r == occurs_at(hay@, needle@, i as int),
{
    let mut k: usize = 0;
    while k < needle.len()
        invariant
            i + needle.len() <= hay.len(),
            k <= needle.len(),
            forall|j: int| 0 <= j < k ==> hay@[i + j] == needle@[j],
        decreases needle.len() - k,
    {
        if hay[i + k] != needle[k] {
            assert(hay@.subrange(i as int, i + needle.len())[k as int] != needle@[k as int]);
            return false;
        }
        k += 1;
    }
    assert(hay@.subrange(i as int, i + needle.len()) =~= needle@);
    true
}

/// Whether `needle` is a substring of `hay` (`str::contains`).
pub fn contains(hay: &Vec<char>, needle: &Vec<char>) -> (r: bool)
    ensures
        r == seq_contains(hay@, needle@),
{
    if needle.len() > hay.len() {
        assert forall|i: int| !occurs_at(hay@, needle@, i) by {}
        return false;
    }
    if needle.len() == 0 {
        assert(occurs_at(hay@, needle@, 0)) by {
            assert(hay@.subrange(0, 0) =~= needle@);
        }
        return true;
    }
    let last = hay.len() - needle.len();
    let mut i: usize = 0;
    while i <= last
        invariant
            last + needle.len() == hay.len(),
            needle.len() > 0,
            i <= last + 1,
            forall|j: int| 0 <= j < i ==> !occurs_at(hay@, needle@, j),
        decreases last + 1 - i,
    {
        if occurs_at_exec(hay, needle, i) {
            return true;
        }
        i += 1;
    }
    assert forall|j: int| !occurs_at(hay@, needle@, j) by {
        if 0 <= j && j + needle.len() <= hay.len() {
            assert(j < i);
        }
    }
    false
}

proof fn lemma_trim_start_drop(s: Seq<char>, k: int)
    requires
        0 <= k <= s.len(),
        forall|j: int| 0 <= j < k ==> is_white(s[j]),
    ensures
        trim_start(s) == trim_start(s.subrange(k, s.len() as int)),
    decreases k,
{
    if k > 0 {
        assert(s.drop_first() =~= s.subrange(1, s.len() as int));
        lemma_trim_start_drop(s.drop_first(), k - 1);
        assert(s.drop_first().subrange(k - 1, s.drop_first().len() as int) =~= s.subrange(k, s.len() as int));
    } else {
        assert(s.subrange(0, s.len() as int) =~= s);
    }
}

proof fn lemma_trim_end_drop(s: Seq<char>, e: int)
    requires
        0 <= e <= s.len(),
        forall|j: int| e <= j < s.len() ==> is_white(s[j]),
    ensures
        trim_end(s) == trim_end(s.subrange(0, e)),
    decreases s.len() - e,
{
    if e < s.len() {
        assert(s.drop_last() =~= s.subrange(0, s.len() - 1));
        lemma_trim_end_drop(s.drop_last(), e);
        assert(s.drop_last().subrange(0, e) =~= s.subrange(0, e));
    } else {
        assert(s.subrange(0, s.len() as int) =~= s);
    }
}

/// `v` without leading and trailing whitespace (`str::trim`).
pub fn trim_chars(v: &Vec<char>) -> (r: Vec<char>)
    ensures
        r@ == trim(v@),
{
    let n = v.len();
    let mut start: usize = 0;
    while start < n && char_is_whitespace(v[start])
        invariant
            n == v.len(),
            start <= n,
            forall|j: int| 0 <= j < start ==> is_white(v@[j]),
        decreases n - start,
    {
        start += 1;
    }
    proof {
        lemma_trim_start_drop(v@, start as int);
    }
    let ghost rest = v@.subrange(start as int, n as int);
    assert(trim_start(rest) == rest) by {
        if rest.len() > 0 {
            assert(rest[0] == v@[start as int]);
        }
    }
    let mut end: usize = n;
    while end > start && char_is_whitespace(v[end - 1])
        invariant
            n == v.len(),
            start <= end <= n,
            rest == v@.subrange(start as int, n as int),
            forall|j: int| end <= j < n ==> is_white(v@[j]),
        decreases end - start,
    {
        end -= 1;
    }
    proof {
        lemma_trim_end_drop(rest, end - start);
        assert(rest.subrange(0, end - start) =~= v@.subrange(start as int, end as int));
    }
    let ghost kept = v@.subrange(start as int, end as int);
    assert(trim_end(kept) == kept) by {
        if kept.len() > 0 {
            assert(kept.last() == v@[end - 1]);
        }
    }
    let mut r: Vec<char> = Vec::new();
    let mut i: usize = start;
    while i < end
        invariant
            n == v.len(),
            start <= i <= end <= n,
            r@ == v@.subrange(start as int, i as int),
        decreases end - i,
    {
        r.push(v[i]);
        i += 1;
        assert(r@ =~= v@.subrange(start as int, i as int));
    }
    r
}

/// The ASCII digit character for `d < 10`.
fn digit(d: u64) -> (c: char)
    requires
        d < 10,
    ensures
        c == digit_char(d as int),
{
    match d {
        0 => '0',
        1 => '1',
        2 => '2',
        3 => '3',
        4 => '4',
        5 => '5',
        6 => '6',
        7 => '7',
        8 => '8',
        _ => '9',
    }
}

/// Decimal digits of `n`.
pub fn nat_to_chars(n: u64) -> (r: Vec<char>)
    ensures
        r@ == nat_decimal(n as nat),
    decreases n,
{
    if n < 10 {
        vec![digit(n)]
    } else {
        let mut r = nat_to_chars(n / 10);
        r.push(digit(n % 10));
        r
    }
}

/// Decimal rendering of `n`, with a leading `-` when negative.
pub fn int_to_chars(n: i64) -> (r: Vec<char>)
    ensures
        r@ == int_decimal(n as int),
{
    if n < 0 {
        let m: u64 = if n == i64::MIN {
            9223372036854775808u64
        } else {
            (-n) as u64
        };
        let mut r = vec!['-'];
        let mut d = nat_to_chars(m);
        r.append(&mut d);
        r
    } else {
        nat_to_chars(n as u64)
    }
}

/// Appends the characters of `s` to `v`.
pub fn push_str(v: &mut Vec<char>, s: &str)
    ensures
        final(v)@ == old(v)@ + s@,
{
    let mut cs = chars_of(s);
    v.append(&mut cs);
}

/// `v` split at every `sep` (`str::split`).
pub fn split_chars(v: &Vec<char>, sep: char) -> (r: Vec<Vec<char>>)
    ensures
        vec_views(r@) == split_on(v@, sep),
{
    let mut r: Vec<Vec<char>> = Vec::new();
    r.push(Vec::new());
    let mut i: usize = 0;
    assert(v@.take(0) =~= Seq::<char>::empty());
    assert(vec_views(r@) =~= split_on(v@.take(0), sep));
    while i < v.len()
        invariant
            i <= v.len(),
            r.len() >= 1,
            vec_views(r@) == split_on(v@.take(i as int), sep),
        decreases v.len() - i,
    {
        let c = v[i];
        let ghost before = vec_views(r@);
        assert(v@.take(i + 1).drop_last() =~= v@.take(i as int));
        proof {
            lemma_split_nonempty(v@.take(i as int), sep);
        }
        if c == sep {
            r.push(Vec::new());
            assert(vec_views(r@) =~= before.push(seq![]));
        } else {
            let last = r.len() - 1;
            let mut piece = r.pop().unwrap();
            piece.push(c);
            r.push(piece);
            assert(vec_views(r@) =~= before.update(last as int, before.last().push(c)));
        }
        i += 1;
    }
    assert(v@.take(v.len() as int) =~= v@);
    r
}

/// Position of the first `c` in `v` (`str::find`).
pub fn find_char(v: &Vec<char>, c: char) -> (r: Option<usize>)
    ensures
        r matches Some(k) ==> find_from(v@, c, 0) == Some(k as int) && k < v@.len(),
        r is None ==> find_from(v@, c, 0) is None,
{
    let mut i: usize = 0;
    while i < v.len()
        invariant
            i <= v.len(),
            find_from(v@, c, 0) == find_from(v@, c, i as int),
        decreases v.len() - i,
    {
        if v[i] == c {
            return Some(i);
        }
        i += 1;
    }
    None
}

/// The characters `v[from..to]`.
pub fn slice_chars(v: &Vec<char>, from: usize, to: usize) -> (r: Vec<char>)
    requires
        from <= to <= v.len(),
    ensures
        r@ == v@.subrange(from as int, to as int),
{
    let mut r: Vec<char> = Vec::new();
    let mut i: usize = from;
    while i < to
        invariant
            from <= i <= to <= v.len(),
            r@ == v@.subrange(from as int, i as int),
        decreases to - i,
    {
        r.push(v[i]);
        i += 1;
        assert(r@ =~= v@.subrange(from as int, i as int));
    }
    r
}

proof fn lemma_trim_start_clean(s: Seq<char>)
    ensures
        trim_start(s).len() == 0 || !is_white(trim_start(s)[0]),
    decreases s.len(),
{
    if s.len() > 0 && is_white(s[0]) {
        lemma_trim_start_clean(s.drop_first());
    }
}

proof fn lemma_trim_end_clean(s: Seq<char>)
    ensures
        trim_end(s).len() == 0 || !is_white(trim_end(s).last()),
        trim_end(s).len() <= s.len(),
        trim_end(s) =~= s.take(trim_end(s).len() as int),
    decreases s.len(),
{
    if s.len() > 0 && is_white(s.last()) {
        lemma_trim_end_clean(s.drop_last());
        assert(s.drop_last().take(trim_end(s).len() as int) =~= s.take(trim_end(s).len() as int));
    } else {
        assert(s.take(s.len() as int) =~= s);
    }
}

/// Trimming is idempotent: a trimmed text has no surrounding whitespace left.
pub proof fn lemma_trim_idempotent(s: Seq<char>)
    ensures
        trim(trim(s)) == trim(s),
{
    let y = trim_start(s);
    let z = trim_end(y);
    lemma_trim_start_clean(s);
    lemma_trim_end_clean(y);
    if z.len() > 0 {
        assert(z[0] == y[0]);
    }
    assert(trim_start(z) == z);
    lemma_trim_end_clean(z);
    assert(trim_end(z) == z);
}

} // verus!
