//! Decimal numerals.
use vstd::prelude::*;

verus! {

/// The character of the decimal digit `d`.
pub open spec fn digit_char(d: int) -> char {
    if d == 0 {
        '0'
    } else if d == 1 {
        '1'
    } else if d == 2 {
        '2'
    } else if d == 3 {
        '3'
    } else if d == 4 {
        '4'
    } else if d == 5 {
        '5'
    } else if d == 6 {
        '6'
    } else if d == 7 {
        '7'
    } else if d == 8 {
        '8'
    } else {
        '9'
    }
}

/// The decimal numeral of `n`, without sign or leading zeros.
pub open spec fn decimal(n: nat) -> Seq<char>
    decreases n,
{
    if n < 10 {
        seq![digit_char(n as int)]
    } else {
        decimal(n / 10).push(digit_char((n % 10) as int))
    }
}

fn digit_of(d: u64) -> (c: char)
    requires
        d < 10,
    ensures
        c == digit_char(d as int),
{
    if d == 0 {
        '0'
    } else if d == 1 {
        '1'
    } else if d == 2 {
        '2'
    } else if d == 3 {
        '3'
    } else if d == 4 {
        '4'
    } else if d == 5 {
        '5'
    } else if d == 6 {
        '6'
    } else if d == 7 {
        '7'
    } else if d == 8 {
        '8'
    } else {
        '9'
    }
}

/// Appends the decimal numeral of `n` to `out`.
pub fn push_decimal(out: &mut Vec<char>, n: u64)
    ensures
        final(out)@ == old(out)@ + decimal(n as nat),
    decreases n,
{
    if n >= 10 {
        push_decimal(out, n / 10);
    }
    out.push(digit_of(n % 10));
    proof {
        if n >= 10 {
            assert(final(out)@ =~= old(out)@ + decimal((n / 10) as nat).push(
                digit_char((n % 10) as int),
            ));
        } else {
            assert(final(out)@ =~= old(out)@ + seq![digit_char(n as int)]);
        }
    }
}

/// The decimal numeral of `n`.
pub fn decimal_chars(n: u64) -> (r: Vec<char>)
    ensures
        r@ == decimal(n as nat),
{
    let mut r: Vec<char> = Vec::new();
    push_decimal(&mut r, n);
    assert(Seq::<char>::empty() + decimal(n as nat) =~= decimal(n as nat));
    r
}

/// Whether `c` is one of `0` to `9`.
pub open spec fn is_digit(c: char) -> bool {
    0x30 <= c as u32 <= 0x39
}

/// The value of the digit `c`.
pub open spec fn digit_value(c: char) -> int {
    c as u32 - 0x30
}

/// Whether `s` is made of decimal digits only.
pub open spec fn all_digits(s: Seq<char>) -> bool {
    forall|i: int| 0 <= i < s.len() ==> is_digit(#[trigger] s[i])
}

/// The number that the digits of `s` denote.
pub open spec fn digits_value(s: Seq<char>) -> int
    decreases s.len(),
{
    if s.len() == 0 {
        0
    } else {
        digits_value(s.drop_last()) * 10 + digit_value(s.last())
    }
}

/// `s` without one leading plus sign.
pub open spec fn unsigned_part(s: Seq<char>) -> Seq<char> {
    if s.len() > 0 && s[0] == '+' {
        s.drop_first()
    } else {
        s
    }
}

/// The number that `s` denotes: an optional plus sign, then one or more
/// decimal digits and nothing else.
pub open spec fn parse_decimal(s: Seq<char>) -> Option<int> {
    let t = unsigned_part(s);
    if t.len() > 0 && all_digits(t) {
        Some(digits_value(t))
    } else {
        None
    }
}

/// A numeral's value is not below that of any of its prefixes.
pub proof fn lemma_digits_value_prefix(s: Seq<char>, k: int)
    requires
        all_digits(s),
        0 <= k <= s.len(),
    ensures
        0 <= digits_value(s.take(k)) <= digits_value(s),
    decreases s.len(),
{
    if k == s.len() {
        assert(s.take(k) == s);
        if s.len() > 0 {
            lemma_digits_value_prefix(s.drop_last(), k - 1);
            assert(s.drop_last().take(k - 1) == s.drop_last());
            assert(is_digit(s[s.len() - 1]));
        }
    } else {
        let t = s.drop_last();
        assert forall|i: int| 0 <= i < t.len() implies is_digit(#[trigger] t[i]) by {
            assert(t[i] == s[i]);
        }
        lemma_digits_value_prefix(t, k);
        assert(t.take(k) == s.take(k));
        assert(is_digit(s[s.len() - 1]));
    }
}

/// Reads `s` as a number that fits in `usize`.
pub fn parse_usize(s: &[char]) -> (r: Option<usize>)
    ensures
        r == match parse_decimal(s@) {
            Some(n) => if n <= usize::MAX {
                Some(n as usize)
            } else {
                None
            },
            None => None,
        },
{
    let n = s.len();
    let start: usize = if n > 0 && s[0] == '+' {
        1
    } else {
        0
    };
    let ghost t = unsigned_part(s@);
    assert(t == s@.skip(start as int));
    if start == n {
        return None;
    }
    let mut acc: usize = 0;
    let mut i: usize = start;
    while i < n
        invariant
            start <= i <= n == s@.len(),
            start < n,
            t == unsigned_part(s@),
            t == s@.skip(start as int),
            all_digits(t.take(i - start)),
            acc == digits_value(t.take(i - start)),
        decreases n - i,
    {
        let u: u32 = s[i] as u32;
        if u < 0x30 || u > 0x39 {
            assert(t[i - start] == s@[i as int]);
            assert(!is_digit(t[i - start]));
            return None;
        }
        let d: usize = (u - 0x30) as usize;
        let ghost next = t.take(i - start + 1);
        proof {
            assert(next.drop_last() == t.take(i - start));
            assert(next.last() == s@[i as int]);
            assert forall|j: int| 0 <= j < next.len() implies is_digit(#[trigger] next[j]) by {
                if j < i - start {
                    assert(next[j] == t.take(i - start)[j]);
                }
            }
        }
        if acc > (usize::MAX - d) / 10 {
            proof {
                assert(digits_value(next) > usize::MAX);
                if all_digits(t) {
                    lemma_digits_value_prefix(t, i - start + 1);
                }
            }
            return None;
        }
        acc = acc * 10 + d;
        i += 1;
    }
    assert(t.take(n - start) == t);
    Some(acc)
}

/// The character of a digit is a digit, and stands for it.
pub proof fn lemma_digit_char(d: int)
    requires
        0 <= d < 10,
    ensures
        is_digit(digit_char(d)),
        digit_value(digit_char(d)) == d,
        digit_char(d) != '+',
{
}

/// A numeral is made of one or more digits, which denote its number.
pub proof fn lemma_decimal_digits(n: nat)
    ensures
        decimal(n).len() > 0,
        all_digits(decimal(n)),
        digits_value(decimal(n)) == n,
    decreases n,
{
    let s = decimal(n);
    if n < 10 {
        lemma_digit_char(n as int);
        assert(s.len() == 1);
        assert(s.drop_last().len() == 0);
        assert(digits_value(s.drop_last()) == 0);
    } else {
        lemma_decimal_digits(n / 10);
        lemma_digit_char((n % 10) as int);
        let front = decimal(n / 10);
        assert(s.drop_last() =~= front);
        assert(s.last() == digit_char((n % 10) as int));
        assert forall|i: int| 0 <= i < s.len() implies is_digit(#[trigger] s[i]) by {
            if i < front.len() {
                assert(s[i] == front[i]);
            }
        }
    }
}

/// A number that is written out as a numeral is read back as the same
/// number: the `Content-Length` that a response announces is the number that
/// a reader takes from it.
pub proof fn lemma_decimal_round_trip(n: nat)
    ensures
        parse_decimal(decimal(n)) == Some(n as int),
{
    lemma_decimal_digits(n);
    let s = decimal(n);
    assert(is_digit(s[0]));
    assert(s[0] != '+');
}

/// Why a text is no number that fits in `usize`.
#[derive(Debug, Clone, Copy)]
pub enum NumberFault {
    /// The text is empty.
    Empty,
    /// The text holds something other than an optional plus sign followed by
    /// one or more digits.
    InvalidDigit,
    /// The number is larger than `usize::MAX`.
    Overflow,
}

impl NumberFault {
    /// The message that reports this fault.
    pub open spec fn message(self) -> Seq<char> {
        match self {
            NumberFault::Empty => "cannot parse integer from empty string"@,
            NumberFault::InvalidDigit => "invalid digit found in string"@,
            NumberFault::Overflow => "number too large to fit in target type"@,
        }
    }

    /// The message that reports this fault.
    pub fn describe(&self) -> (r: &'static str)
        ensures
            r@ == self.message(),
    {
        match self {
            NumberFault::Empty => "cannot parse integer from empty string",
            NumberFault::InvalidDigit => "invalid digit found in string",
            NumberFault::Overflow => "number too large to fit in target type",
        }
    }
}

/// The number that `s` denotes if it fits in `usize`, or what is wrong with
/// `s`: an empty text is `Empty`; a text that is not an optional plus sign
/// followed by one or more digits is `InvalidDigit`; a number above
/// `usize::MAX` is `Overflow`.
pub open spec fn read_number(s: Seq<char>) -> Result<usize, NumberFault> {
    if s.len() == 0 {
        Err(NumberFault::Empty)
    } else {
        match parse_decimal(s) {
            None => Err(NumberFault::InvalidDigit),
            Some(n) => if n <= usize::MAX {
                Ok(n as usize)
            } else {
                Err(NumberFault::Overflow)
            },
        }
    }
}

/// Whether `s` is an optional plus sign followed by one or more digits.
fn is_numeral(s: &[char]) -> (r: bool)
    ensures
        r == (parse_decimal(s@) is Some),
{
    let n = s.len();
    let start: usize = if n > 0 && s[0] == '+' {
        1
    } else {
        0
    };
    let ghost t = unsigned_part(s@);
    assert(t == s@.skip(start as int));
    if start == n {
        return false;
    }
    let mut i: usize = start;
    while i < n
        invariant
            start <= i <= n == s@.len(),
            start < n,
            t == unsigned_part(s@),
            t == s@.skip(start as int),
            forall|j: int| 0 <= j < i - start ==> is_digit(#[trigger] t[j]),
        decreases n - i,
    {
        let u: u32 = s[i] as u32;
        if u < 0x30 || u > 0x39 {
            assert(t[i - start] == s@[i as int]);
            assert(!is_digit(t[i - start]));
            return false;
        }
        assert(t[i - start] == s@[i as int]);
        i += 1;
    }
    true
}

/// Reads `s` as a number that fits in `usize`, and says what is wrong where it
/// is none.
pub fn read_usize(s: &[char]) -> (r: Result<usize, NumberFault>)
    ensures
        r == read_number(s@),
{
    if s.len() == 0 {
        Err(NumberFault::Empty)
    } else if !is_numeral(s) {
        Err(NumberFault::InvalidDigit)
    } else {
        match parse_usize(s) {
            Some(n) => Ok(n),
            None => Err(NumberFault::Overflow),
        }
    }
}

} // verus!
