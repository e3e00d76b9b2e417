//! Character-level text operations with mathematical specifications.
//!
//! Text is modelled as `Seq<char>`. The executable functions work on slices of
//! `char`, so that every position is reached in constant time.
use vstd::prelude::*;

verus! {

/// The characters of `s`, in order.
pub fn chars_of(s: &str) -> (v: Vec<char>)
    ensures
        v@ == s@,
{
    let mut v: Vec<char> = Vec::new();
    for c in it: s.chars()
        invariant
            v@ == it.seq().take(it.index() as int),
            it.seq() == s@,
    {
        v.push(c);
    }
    v
}

/// Builds the string made of the given characters.
///
/// Trusted: wraps `String::from_iter` of the standard library, which collects
/// the characters in the order in which the iterator yields them.
#[verifier::external_body]
pub(crate) fn string_of(v: &[char]) -> (s: String)
    ensures
        s@ == v@,
{
    String::from_iter(v.iter())
}

/// A copy of `s[from..to]`.
pub fn copy_range(s: &[char], from: usize, to: usize) -> (r: Vec<char>)
    requires
        from <= to <= s@.len(),
    ensures
        r@ == s@.subrange(from as int, to as int),
{
    let mut r: Vec<char> = Vec::new();
    let mut i: usize = from;
    while i < to
        invariant
            from <= i <= to <= s@.len(),
            r@ == s@.subrange(from as int, i as int),
        decreases to - i,
    {
        r.push(s[i]);
        i += 1;
    }
    r
}

/// Appends the characters of `tail` to `out`.
pub fn extend_chars(out: &mut Vec<char>, tail: &[char])
    ensures
        final(out)@ == old(out)@ + tail@,
{
    let mut i: usize = 0;
    while i < tail.len()
        invariant
            i <= tail@.len(),
            out@ == old(out)@ + tail@.take(i as int),
        decreases tail@.len() - i,
    {
        out.push(tail[i]);
        i += 1;
    }
    assert(tail@.take(tail@.len() as int) == tail@);
}

/// Appends the characters of the string `tail` to `out`.
pub fn extend_str(out: &mut Vec<char>, tail: &str)
    ensures
        final(out)@ == old(out)@ + tail@,
{
    let t = chars_of(tail);
    extend_chars(out, t.as_slice());
}

/// Whether two character slices hold the same text.
pub fn chars_eq(a: &[char], b: &[char]) -> (r: bool)
    ensures
        r == (a@ == b@),
{
    if a.len() != b.len() {
        return false;
    }
    let mut i: usize = 0;
    while i < a.len()
        invariant
            i <= a@.len(),
            a@.len() == b@.len(),
            a@.take(i as int) == b@.take(i as int),
        decreases a@.len() - i,
    {
        if a[i] != b[i] {
            return false;
        }
        assert(a@.take(i + 1) == a@.take(i as int).push(a@[i as int]));
        assert(b@.take(i + 1) == b@.take(i as int).push(b@[i as int]));
        i += 1;
    }
    assert(a@.take(a@.len() as int) == a@);
    assert(b@.take(b@.len() as int) == b@);
    true
}

/// Whether two strings hold the same text.
pub fn str_eq(a: &str, b: &str) -> (r: bool)
    ensures
        r == (a@ == b@),
{
    let x = chars_of(a);
    let y = chars_of(b);
    chars_eq(x.as_slice(), y.as_slice())
}

/// Index of the first occurrence of `c` in `s`, or `s.len()` if there is none.
pub open spec fn position(s: Seq<char>, c: char) -> int
    decreases s.len(),
{
    if s.len() == 0 {
        0
    } else if s[0] == c {
        0
    } else {
        1 + position(s.drop_first(), c)
    }
}

/// `position` lies within `0..=s.len()`, points at `c` when inside the text,
/// and nothing before it is `c`.
pub proof fn lemma_position(s: Seq<char>, c: char)
    ensures
        0 <= position(s, c) <= s.len(),
        position(s, c) < s.len() ==> s[position(s, c)] == c,
        forall|j: int| 0 <= j < position(s, c) ==> s[j] != c,
    decreases s.len(),
{
    if s.len() != 0 && s[0] != c {
        lemma_position(s.drop_first(), c);
        assert forall|j: int| 0 <= j < position(s, c) implies s[j] != c by {
            if j > 0 {
                assert(s.drop_first()[j - 1] == s[j]);
            }
        }
    }
}

/// The first index at which `c` stands, with nothing equal to `c` before it,
/// is `position`.
pub proof fn lemma_position_is(s: Seq<char>, c: char, i: int)
    requires
        0 <= i <= s.len(),
        forall|j: int| 0 <= j < i ==> s[j] != c,
        i == s.len() || s[i] == c,
    ensures
        position(s, c) == i,
    decreases s.len(),
{
    if s.len() != 0 && i != 0 {
        assert(s[0] != c);
        let t = s.drop_first();
        assert forall|j: int| 0 <= j < i - 1 implies t[j] != c by {
            assert(t[j] == s[j + 1]);
        }
        lemma_position_is(t, c, i - 1);
    }
}

/// Index of the first occurrence of `c` in `s`, or `s.len()`.
pub fn find_char(s: &[char], c: char) -> (i: usize)
    ensures
        i == position(s@, c),
{
    let mut i: usize = 0;
    while i < s.len()
        invariant
            i <= s@.len(),
            forall|j: int| 0 <= j < i ==> s@[j] != c,
        decreases s@.len() - i,
    {
        if s[i] == c {
            proof {
                lemma_position_is(s@, c, i as int);
            }
            return i;
        }
        i += 1;
    }
    proof {
        lemma_position_is(s@, c, i as int);
    }
    i
}

/// The text before the first `c` and the text after it, if `c` occurs.
pub open spec fn split_once(s: Seq<char>, c: char) -> Option<(Seq<char>, Seq<char>)> {
    let p = position(s, c);
    if p < s.len() {
        Some((s.take(p), s.skip(p + 1)))
    } else {
        None
    }
}

/// Splits `s` at its first `c`.
pub fn split_once_chars(s: &[char], c: char) -> (r: Option<(Vec<char>, Vec<char>)>)
    ensures
        r is Some <==> split_once(s@, c) is Some,
        r matches Some(p) ==> (p.0@, p.1@) == split_once(s@, c)->0,
{
    let p = find_char(s, c);
    proof {
        lemma_position(s@, c);
    }
    if p < s.len() {
        let head = copy_range(s, 0, p);
        let tail = copy_range(s, p + 1, s.len());
        Some((head, tail))
    } else {
        None
    }
}

/// Whether `pat` stands in `s` at index `i`.
pub open spec fn occurs_at(s: Seq<char>, pat: Seq<char>, i: int) -> bool {
    0 <= i && i + pat.len() <= s.len() && s.subrange(i, i + pat.len()) == pat
}

/// Index of the first occurrence of `pat` in `s`, if there is one.
pub open spec fn find(s: Seq<char>, pat: Seq<char>) -> Option<int> {
    if exists|i: int| occurs_at(s, pat, i) {
        Some(first_occurrence(s, pat, 0))
    } else {
        None
    }
}

/// The least index from `from` on at which `pat` stands in `s`; `s.len() + 1`
/// if there is none.
pub open spec fn first_occurrence(s: Seq<char>, pat: Seq<char>, from: int) -> int
    decreases s.len() + 1 - from,
{
    if from < 0 || from > s.len() {
        (s.len() + 1) as int
    } else if occurs_at(s, pat, from) {
        from
    } else {
        first_occurrence(s, pat, from + 1)
    }
}

/// If `pat` stands nowhere in `from..i` and stands at `i`, the first
/// occurrence from `from` on is `i`.
pub proof fn lemma_first_occurrence_is(s: Seq<char>, pat: Seq<char>, from: int, i: int)
    requires
        0 <= from <= i,
        forall|j: int| from <= j < i ==> !occurs_at(s, pat, j),
        occurs_at(s, pat, i),
    ensures
        first_occurrence(s, pat, from) == i,
    decreases i - from,
{
    if from < i {
        lemma_first_occurrence_is(s, pat, from + 1, i);
    }
}

/// Where `pat` occurs at all, `first_occurrence` points at an occurrence, and
/// there is none before it.
pub proof fn lemma_first_occurrence(s: Seq<char>, pat: Seq<char>, from: int, at: int)
    requires
        0 <= from <= at,
        occurs_at(s, pat, at),
    ensures
        from <= first_occurrence(s, pat, from) <= at,
        occurs_at(s, pat, first_occurrence(s, pat, from)),
        forall|j: int| from <= j < first_occurrence(s, pat, from) ==> !occurs_at(s, pat, j),
    decreases at - from,
{
    if !occurs_at(s, pat, from) {
        lemma_first_occurrence(s, pat, from + 1, at);
    }
}

/// An occurrence that `find` reports lies within the text, and is the first.
pub proof fn lemma_find_within(s: Seq<char>, pat: Seq<char>)
    ensures
        find(s, pat) matches Some(i) ==> occurs_at(s, pat, i) && forall|j: int|
            0 <= j < i ==> !occurs_at(s, pat, j),
{
    if exists|i: int| occurs_at(s, pat, i) {
        let at = choose|i: int| occurs_at(s, pat, i);
        lemma_first_occurrence(s, pat, 0, at);
    }
}

/// Whether `pat` stands in `s` at index `i`.
pub fn matches_at(s: &[char], pat: &[char], i: usize) -> (r: bool)
    ensures
        r == occurs_at(s@, pat@, i as int),
{
    if i > s.len() || pat.len() > s.len() - i {
        return false;
    }
    let mut k: usize = 0;
    while k < pat.len()
        invariant
            i + pat@.len() <= s@.len() <= usize::MAX,
            k <= pat@.len(),
            s@.subrange(i as int, i + k) == pat@.take(k as int),
        decreases pat@.len() - k,
    {
        if s[i + k] != pat[k] {
            assert(s@.subrange(i as int, i + pat@.len())[k as int] == s@[i + k]);
            return false;
        }
        assert(s@.subrange(i as int, i + k + 1) == s@.subrange(i as int, i + k).push(s@[i + k]));
        assert(pat@.take(k + 1) == pat@.take(k as int).push(pat@[k as int]));
        k += 1;
    }
    assert(pat@.take(pat@.len() as int) == pat@);
    true
}

/// Index of the first occurrence of `pat` in `s`, if there is one.
pub fn find_chars(s: &[char], pat: &[char]) -> (r: Option<usize>)
    ensures
        r is Some <==> find(s@, pat@) is Some,
        r matches Some(i) ==> find(s@, pat@) == Some(i as int),
{
    let mut i: usize = 0;
    while i <= s.len()
        invariant
            i <= s@.len() + 1,
            forall|j: int| 0 <= j < i ==> !occurs_at(s@, pat@, j),
        decreases s@.len() + 1 - i,
    {
        if matches_at(s, pat, i) {
            proof {
                lemma_first_occurrence_is(s@, pat@, 0, i as int);
            }
            return Some(i);
        }
        if i == s.len() {
            return None;
        }
        i += 1;
    }
    None
}

/// Whether `s` begins with `pat`.
pub fn starts_with_chars(s: &[char], pat: &[char]) -> (r: bool)
    ensures
        r == pat@.is_prefix_of(s@),
{
    let r = matches_at(s, pat, 0);
    proof {
        if pat@.len() <= s@.len() {
            assert(s@.subrange(0, pat@.len() as int) =~= s@.take(pat@.len() as int));
        }
    }
    r
}

} // verus!
