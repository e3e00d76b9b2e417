//! Whitespace, trimming, splitting into fields, words and lines.
use crate::text::{copy_range, find_char, lemma_position, position};
use vstd::prelude::*;

verus! {

/// Whether `c` has the Unicode property `White_Space`.
pub open spec fn is_whitespace(c: char) -> bool {
    let u = c as u32;
    (0x09 <= u <= 0x0d) || u == 0x20 || u == 0x85 || u == 0xa0 || u == 0x1680 || (0x2000 <= u
        <= 0x200a) || u == 0x2028 || u == 0x2029 || u == 0x202f || u == 0x205f || u == 0x3000
}

/// Whether `c` has the Unicode property `White_Space`.
pub fn char_is_whitespace(c: char) -> (r: bool)
    ensures
        r == is_whitespace(c),
{
    let u: u32 = c as u32;
    (0x09 <= u && u <= 0x0d) || u == 0x20 || u == 0x85 || u == 0xa0 || u == 0x1680 || (0x2000 <= u
        && u <= 0x200a) || u == 0x2028 || u == 0x2029 || u == 0x202f || u == 0x205f || u
        == 0x3000
}

/// Length of the longest prefix of `s` made of whitespace only.
pub open spec fn space_run(s: Seq<char>) -> int
    decreases s.len(),
{
    if s.len() > 0 && is_whitespace(s[0]) {
        1 + space_run(s.drop_first())
    } else {
        0
    }
}

/// Length of the longest prefix of `s` that holds no whitespace.
pub open spec fn word_run(s: Seq<char>) -> int
    decreases s.len(),
{
    if s.len() > 0 && !is_whitespace(s[0]) {
        1 + word_run(s.drop_first())
    } else {
        0
    }
}

/// Length of the longest suffix of `s` made of whitespace only.
pub open spec fn space_tail(s: Seq<char>) -> int
    decreases s.len(),
{
    if s.len() > 0 && is_whitespace(s.last()) {
        1 + space_tail(s.drop_last())
    } else {
        0
    }
}

/// Where the first `k` characters are whitespace and the next one, if there
/// is one, is not, the leading whitespace is `k` long.
pub proof fn lemma_space_run_is(s: Seq<char>, k: int)
    requires
        0 <= k <= s.len(),
        forall|j: int| 0 <= j < k ==> is_whitespace(s[j]),
        k == s.len() || !is_whitespace(s[k]),
    ensures
        space_run(s) == k,
    decreases s.len(),
{
    if s.len() > 0 && k > 0 {
        assert(is_whitespace(s[0]));
        let t = s.drop_first();
        assert forall|j: int| 0 <= j < k - 1 implies is_whitespace(t[j]) by {
            assert(t[j] == s[j + 1]);
        }
        lemma_space_run_is(t, k - 1);
    }
}

/// Where none of the first `k` characters is whitespace and the next one, if
/// there is one, is, the leading word is `k` long.
pub proof fn lemma_word_run_is(s: Seq<char>, k: int)
    requires
        0 <= k <= s.len(),
        forall|j: int| 0 <= j < k ==> !is_whitespace(s[j]),
        k == s.len() || is_whitespace(s[k]),
    ensures
        word_run(s) == k,
    decreases s.len(),
{
    if s.len() > 0 && k > 0 {
        assert(!is_whitespace(s[0]));
        let t = s.drop_first();
        assert forall|j: int| 0 <= j < k - 1 implies !is_whitespace(t[j]) by {
            assert(t[j] == s[j + 1]);
        }
        lemma_word_run_is(t, k - 1);
    }
}

/// Where the last `k` characters are whitespace and the one before them, if
/// there is one, is not, the trailing whitespace is `k` long.
pub proof fn lemma_space_tail_is(s: Seq<char>, k: int)
    requires
        0 <= k <= s.len(),
        forall|j: int| s.len() - k <= j < s.len() ==> is_whitespace(s[j]),
        k == s.len() || !is_whitespace(s[s.len() - k - 1]),
    ensures
        space_tail(s) == k,
    decreases s.len(),
{
    if s.len() > 0 && k > 0 {
        assert(is_whitespace(s.last()));
        let t = s.drop_last();
        assert forall|j: int| t.len() - (k - 1) <= j < t.len() implies is_whitespace(t[j]) by {
            assert(t[j] == s[j]);
        }
        lemma_space_tail_is(t, k - 1);
    }
}

/// `s` without its leading whitespace.
pub open spec fn trim_start(s: Seq<char>) -> Seq<char> {
    s.skip(space_run(s))
}

/// `s` without its trailing whitespace.
pub open spec fn trim_end(s: Seq<char>) -> Seq<char> {
    s.take(s.len() - space_tail(s))
}

/// `s` without its leading and trailing whitespace.
pub open spec fn trim(s: Seq<char>) -> Seq<char> {
    trim_end(trim_start(s))
}

/// `s` without its leading and trailing whitespace.
pub fn trim_chars(s: &[char]) -> (r: Vec<char>)
    ensures
        r@ == trim(s@),
{
    let n = s.len();
    let mut a: usize = 0;
    while a < n && char_is_whitespace(s[a])
        invariant
            a <= n == s@.len(),
            forall|j: int| 0 <= j < a ==> is_whitespace(s@[j]),
        decreases n - a,
    {
        a += 1;
    }
    proof {
        lemma_space_run_is(s@, a as int);
    }
    let mut b: usize = n;
    while b > a && char_is_whitespace(s[b - 1])
        invariant
            a <= b <= n == s@.len(),
            forall|j: int| b <= j < n ==> is_whitespace(s@[j]),
        decreases b,
    {
        b -= 1;
    }
    proof {
        let t = s@.skip(a as int);
        assert forall|j: int| t.len() - (n - b) <= j < t.len() implies is_whitespace(t[j]) by {
            assert(t[j] == s@[j + a]);
        }
        lemma_space_tail_is(t, (n - b) as int);
        assert(t.take(t.len() - (n - b)) == s@.subrange(a as int, b as int));
    }
    copy_range(s, a, b)
}

/// The texts that the vectors of `v` hold, in order.
pub open spec fn texts(v: Seq<Vec<char>>) -> Seq<Seq<char>> {
    Seq::new(v.len(), |i: int| v[i]@)
}

/// Pushing a vector pushes its text.
pub proof fn lemma_texts_push(v: Seq<Vec<char>>, x: Vec<char>)
    ensures
        texts(v.push(x)) == texts(v).push(x@),
{
    assert(texts(v.push(x)) =~= texts(v).push(x@));
}

/// A list of texts with nothing in front of it is the list itself.
proof fn lemma_nothing_in_front()
    ensures
        forall|x: Seq<Seq<char>>| #[trigger] (Seq::<Seq<char>>::empty() + x) == x,
{
    assert forall|x: Seq<Seq<char>>| #[trigger] (Seq::<Seq<char>>::empty() + x) == x by {
        assert(Seq::<Seq<char>>::empty() + x =~= x);
    }
}

/// The fields of `s` between occurrences of `sep`; never empty.
pub open spec fn split(s: Seq<char>, sep: char) -> Seq<Seq<char>>
    decreases s.len(),
{
    let p = position(s, sep);
    if 0 <= p < s.len() {
        seq![s.take(p)] + split(s.skip(p + 1), sep)
    } else {
        seq![s]
    }
}

/// The fields of `s` between occurrences of `sep`.
pub fn split_chars(s: &[char], sep: char) -> (r: Vec<Vec<char>>)
    ensures
        texts(r@) == split(s@, sep),
{
    let n = s.len();
    let mut r: Vec<Vec<char>> = Vec::new();
    assert(texts(r@) =~= Seq::<Seq<char>>::empty());
    assert(s@.skip(0) == s@);
    proof {
        lemma_nothing_in_front();
    }
    let mut start: usize = 0;
    let mut i: usize = 0;
    while i < n
        invariant
            start <= i <= n == s@.len(),
            forall|j: int| start <= j < i ==> s@[j] != sep,
            split(s@, sep) == texts(r@) + split(s@.skip(start as int), sep),
        decreases n - i,
    {
        if s[i] == sep {
            let field = copy_range(s, start, i);
            proof {
                let t = s@.skip(start as int);
                assert forall|j: int| 0 <= j < i - start implies t[j] != sep by {
                    assert(t[j] == s@[j + start]);
                }
                crate::text::lemma_position_is(t, sep, i - start);
                assert(t.take(i - start) == field@);
                assert(t.skip(i - start + 1) == s@.skip(i + 1));
                assert(texts(r@).push(field@) + split(s@.skip(i + 1), sep) == texts(r@)
                    + (seq![field@] + split(s@.skip(i + 1), sep)));
            }
            proof {
                lemma_texts_push(r@, field);
            }
            r.push(field);
            start = i + 1;
        }
        i += 1;
    }
    let field = copy_range(s, start, n);
    proof {
        let t = s@.skip(start as int);
        assert forall|j: int| 0 <= j < t.len() implies t[j] != sep by {
            assert(t[j] == s@[j + start]);
        }
        crate::text::lemma_position_is(t, sep, t.len() as int);
        assert(t == field@);
        assert(texts(r@).push(field@) == texts(r@) + seq![field@]);
    }
    proof {
        lemma_texts_push(r@, field);
    }
    r.push(field);
    r
}

/// The maximal runs of non-whitespace characters of `s`, in order.
pub open spec fn split_whitespace(s: Seq<char>) -> Seq<Seq<char>>
    decreases s.len(),
{
    if s.len() == 0 {
        seq![]
    } else if is_whitespace(s[0]) {
        split_whitespace(s.drop_first())
    } else {
        let w = word_run(s);
        if 0 < w <= s.len() {
            seq![s.take(w)] + split_whitespace(s.skip(w))
        } else {
            seq![]
        }
    }
}

/// The maximal runs of non-whitespace characters of `s`, in order.
pub fn split_whitespace_chars(s: &[char]) -> (r: Vec<Vec<char>>)
    ensures
        texts(r@) == split_whitespace(s@),
{
    let n = s.len();
    let mut r: Vec<Vec<char>> = Vec::new();
    assert(texts(r@) =~= Seq::<Seq<char>>::empty());
    assert(s@.skip(0) == s@);
    proof {
        lemma_nothing_in_front();
    }
    let mut i: usize = 0;
    while i < n
        invariant
            i <= n == s@.len(),
            split_whitespace(s@) == texts(r@) + split_whitespace(s@.skip(i as int)),
        decreases n - i,
    {
        if char_is_whitespace(s[i]) {
            proof {
                let t = s@.skip(i as int);
                assert(t[0] == s@[i as int]);
                assert(t.drop_first() == s@.skip(i + 1));
            }
            i += 1;
        } else {
            let mut j: usize = i + 1;
            while j < n && !char_is_whitespace(s[j])
                invariant
                    i < j <= n == s@.len(),
                    forall|k: int| i <= k < j ==> !is_whitespace(s@[k]),
                decreases n - j,
            {
                j += 1;
            }
            let word = copy_range(s, i, j);
            proof {
                let t = s@.skip(i as int);
                assert(t[0] == s@[i as int]);
                assert forall|k: int| 0 <= k < j - i implies !is_whitespace(t[k]) by {
                    assert(t[k] == s@[k + i]);
                }
                if j < n {
                    assert(t[j - i] == s@[j as int]);
                }
                lemma_word_run_is(t, j - i);
                assert(t.take(j - i) == word@);
                assert(t.skip(j - i) == s@.skip(j as int));
                assert(texts(r@).push(word@) + split_whitespace(s@.skip(j as int))
                    == texts(r@) + (seq![word@] + split_whitespace(s@.skip(j as int))));
            }
            proof {
                lemma_texts_push(r@, word);
            }
            r.push(word);
            i = j;
        }
    }
    assert(s@.skip(n as int).len() == 0);
    assert(texts(r@) + Seq::<Seq<char>>::empty() == texts(r@));
    r
}

/// `line` without one trailing carriage return.
pub open spec fn strip_cr(line: Seq<char>) -> Seq<char> {
    if line.len() > 0 && line.last() == '\r' {
        line.drop_last()
    } else {
        line
    }
}

/// The lines of `s`: the text between line feeds, each without the carriage
/// return that may stand before its line feed. A final line feed opens no
/// further line.
pub open spec fn lines(s: Seq<char>) -> Seq<Seq<char>>
    decreases s.len(),
{
    if s.len() == 0 {
        seq![]
    } else {
        let p = position(s, '\n');
        if 0 <= p < s.len() {
            seq![strip_cr(s.take(p))] + lines(s.skip(p + 1))
        } else {
            seq![s]
        }
    }
}

/// The lines of `s`.
pub fn lines_chars(s: &[char]) -> (r: Vec<Vec<char>>)
    ensures
        texts(r@) == lines(s@),
{
    let n = s.len();
    let mut r: Vec<Vec<char>> = Vec::new();
    assert(texts(r@) =~= Seq::<Seq<char>>::empty());
    assert(s@.skip(0) == s@);
    proof {
        lemma_nothing_in_front();
    }
    let mut start: usize = 0;
    while start < n
        invariant
            start <= n == s@.len(),
            lines(s@) == texts(r@) + lines(s@.skip(start as int)),
        decreases n - start,
    {
        let rest = vstd::slice::slice_subrange(s, start, n);
        assert(rest@ == s@.skip(start as int));
        let p = find_char(rest, '\n');
        proof {
            lemma_position(rest@, '\n');
        }
        if p < rest.len() {
            let end = if p > 0 && rest[p - 1] == '\r' {
                p - 1
            } else {
                p
            };
            let line = copy_range(rest, 0, end);
            proof {
                assert(rest@.take(p as int).len() == p);
                assert(line@ == strip_cr(rest@.take(p as int)));
                assert(rest@.skip(p + 1) == s@.skip(start + p + 1));
                assert(texts(r@).push(line@) + lines(s@.skip(start + p + 1)) == texts(r@)
                    + (seq![line@] + lines(s@.skip(start + p + 1))));
            }
            proof {
                lemma_texts_push(r@, line);
            }
            r.push(line);
            start = start + p + 1;
        } else {
            let line = copy_range(rest, 0, rest.len());
            proof {
                assert(line@ == rest@);
                assert(texts(r@).push(line@) + lines(s@.skip(n as int)) == texts(r@)
                    + seq![line@]);
            }
            proof {
                lemma_texts_push(r@, line);
            }
            r.push(line);
            start = n;
        }
    }
    assert(s@.skip(n as int).len() == 0);
    assert(texts(r@) + Seq::<Seq<char>>::empty() == texts(r@));
    r
}

} // verus!
