//! Decimal text of integers, and the few string operations the stages share.

use vstd::prelude::*;
use vstd::string::StrSliceExecFns;

verus! {

/// `String::push` appends the given character to the end of the string.
pub assume_specification[ String::push ](s: &mut String, ch: char)
    ensures
        final(s)@ == old(s)@.push(ch),
;

/// Whether `c` is one of the ten ASCII decimal digits.
pub open spec fn is_digit(c: char) -> bool {
    '0' <= c <= '9'
}

/// The digit that stands for `d`, for `d` below ten.
pub open spec fn digit_char(d: nat) -> char {
    (d + 48) as char
}

/// The number a decimal digit stands for.
pub open spec fn digit_value(c: char) -> nat {
    (c as nat - 48) as nat
}

/// Base-ten digits of `n`, most significant first, without leading zeros.
pub open spec fn digits(n: nat) -> Seq<char>
    decreases n,
{
    if n < 10 {
        seq![digit_char(n)]
    } else {
        digits(n / 10).push(digit_char(n % 10))
    }
}

/// Decimal text of `v`: a minus sign for a negative value, then its digits.
pub open spec fn decimal_text(v: int) -> Seq<char> {
    if v < 0 {
        seq!['-'] + digits((-v) as nat)
    } else {
        digits(v as nat)
    }
}

/// Whether every character of `s` is a decimal digit.
pub open spec fn all_digits(s: Seq<char>) -> bool {
    forall|i: int| 0 <= i < s.len() ==> is_digit(#[trigger] s[i])
}

/// The number that a run of digits denotes in base ten.
pub open spec fn digits_value(s: Seq<char>) -> nat
    decreases s.len(),
{
    if s.len() == 0 {
        0
    } else {
        digits_value(s.drop_last()) * 10 + digit_value(s.last())
    }
}

/// The value of `s` as an integer literal: `s` is a non-empty run of decimal
/// digits whose value fits in an `i64`. Anything else is no literal.
pub open spec fn literal_value(s: Seq<char>) -> Option<i64> {
    if s.len() > 0 && all_digits(s) && digits_value(s) <= i64::MAX {
        Some(digits_value(s) as i64)
    } else {
        None
    }
}

fn digit_of(d: u64) -> (c: char)
    requires
        d < 10,
    ensures
        c == digit_char(d as nat),
{
    (d as u8 + 48u8) as char
}

/// Appends the digits of `n` to `out`.
pub fn push_digits(out: &mut String, n: u64)
    ensures
        final(out)@ == old(out)@ + digits(n as nat),
    decreases n,
{
    if n >= 10 {
        push_digits(out, n / 10);
    }
    out.push(digit_of(n % 10));
}

/// Appends the decimal text of `v` to `out`.
pub fn push_decimal(out: &mut String, v: i64)
    ensures
        final(out)@ == old(out)@ + decimal_text(v as int),
{
    if v < 0 {
        out.push('-');
        let magnitude: u64 = (-(v + 1)) as u64 + 1;
        push_digits(out, magnitude);
    } else {
        push_digits(out, v as u64);
    }
}

/// A longer run of digits denotes no smaller a number than any of its prefixes.
pub proof fn lemma_digits_value_prefix(s: Seq<char>, n: int)
    requires
        0 <= n <= s.len(),
    ensures
        digits_value(s.subrange(0, n)) <= digits_value(s),
    decreases s.len() - n,
{
    if n == s.len() {
        assert(s.subrange(0, n) == s);
    } else {
        lemma_digits_value_prefix(s.drop_last(), n);
        assert(s.drop_last().subrange(0, n) == s.subrange(0, n));
    }
}

/// Reads a text as an integer literal.
pub fn read_literal(text: &Vec<char>) -> (value: Option<i64>)
    ensures
        value == literal_value(text@),
{
    let n = text.len();
    if n == 0 {
        return None;
    }
    let mut value: i64 = 0;
    let mut i: usize = 0;
    while i < n
        invariant
            i <= n == text@.len(),
            all_digits(text@.subrange(0, i as int)),
            value == digits_value(text@.subrange(0, i as int)),
        decreases n - i,
    {
        let c = text[i];
        let ghost seen = text@.subrange(0, i as int);
        let ghost next = text@.subrange(0, i + 1);
        assert(next.drop_last() == seen);
        assert(next.last() == c);
        if c < '0' || c > '9' {
            assert(!is_digit(text@[i as int]));
            return None;
        }
        let d: i64 = (c as u8 - 48u8) as i64;
        if value > (i64::MAX - d) / 10 {
            proof {
                lemma_digits_value_prefix(text@, i + 1);
            }
            return None;
        }
        value = value * 10 + d;
        assert forall|k: int| 0 <= k < next.len() implies is_digit(#[trigger] next[k]) by {
            if k < seen.len() {
                assert(next[k] == seen[k]);
            }
        }
        i += 1;
    }
    assert(text@.subrange(0, n as int) == text@);
    Some(value)
}

/// The digits of a number are a literal of that number: what the code
/// generator writes for a value that is not negative, the tokenizer reads
/// back as the same value.
pub proof fn law_digits_read_back(n: nat)
    ensures
        digits(n).len() > 0,
        all_digits(digits(n)),
        digits_value(digits(n)) == n,
        n <= i64::MAX ==> literal_value(digits(n)) == Some(n as i64),
    decreases n,
{
    if n >= 10 {
        law_digits_read_back(n / 10);
        let text = digits(n);
        assert(text.drop_last() == digits(n / 10));
        assert(text.last() == digit_char(n % 10));
        assert forall|i: int| 0 <= i < text.len() implies is_digit(#[trigger] text[i]) by {
            if i < text.len() - 1 {
                assert(text[i] == digits(n / 10)[i]);
            }
        }
    } else {
        let text = digits(n);
        assert(text.drop_last() == Seq::<char>::empty());
        assert(digits_value(text.drop_last()) == 0);
    }
}

/// Whether two strings hold the same characters. Strings of different
/// length are told apart at once; meant for short names.
pub fn str_equal(a: &str, b: &str) -> (same: bool)
    ensures
        same == (a@ == b@),
{
    let n = a.unicode_len();
    if b.unicode_len() != n {
        return false;
    }
    let mut i: usize = 0;
    while i < n
        invariant
            n == a@.len(),
            n == b@.len(),
            i <= n,
            a@.subrange(0, i as int) == b@.subrange(0, i as int),
        decreases n - i,
    {
        if a.get_char(i) != b.get_char(i) {
            assert(a@[i as int] != b@[i as int]);
            return false;
        }
        assert(a@.subrange(0, i + 1) == a@.subrange(0, i as int).push(a@[i as int]));
        assert(b@.subrange(0, i + 1) == b@.subrange(0, i as int).push(b@[i as int]));
        i += 1;
    }
    assert(a@ == a@.subrange(0, n as int));
    assert(b@ == b@.subrange(0, n as int));
    true
}

} // verus!
