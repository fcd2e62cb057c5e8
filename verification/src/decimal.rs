//! Decimal text of non-negative integers: reading what a user typed into a
//! number field, and writing a number back into one.
use vstd::prelude::*;
use vstd::string::StrSliceExecFns;

verus! {

/// Why a text is not a decimal number that fits in a `u64`.
#[derive(Debug, Clone, Copy, PartialEq, Eq, Structural)]
pub enum ParseError {
    /// The text is empty.
    Empty,
    /// The text holds a character that is not a decimal digit (a lone `+`
    /// counts as such).
    InvalidDigit,
    /// The digits spell a number larger than `u64::MAX`.
    Overflow,
}

pub open spec fn is_digit(c: char) -> bool {
    '0' <= c && c <= '9'
}

pub open spec fn digit_value(c: char) -> int {
    (c as int) - ('0' as int)
}

pub open spec fn digit_char(d: int) -> char {
    ((d + ('0' as int)) as char)
}

/// Reads `digits[i..]` from left to right onto the value `acc` read so far:
/// the first character that is no digit is an error, and so is the first
/// digit that takes the value past `u64::MAX`.
pub open spec fn scan_digits(digits: Seq<char>, i: int, acc: int) -> Result<u64, ParseError>
    decreases digits.len() - i,
{
    if i >= digits.len() {
        Ok(acc as u64)
    } else if !is_digit(digits[i]) {
        Err(ParseError::InvalidDigit)
    } else if acc * 10 + digit_value(digits[i]) > u64::MAX {
        Err(ParseError::Overflow)
    } else {
        scan_digits(digits, i + 1, acc * 10 + digit_value(digits[i]))
    }
}

/// What reading a text as a `u64` gives: an optional leading `+`, then at
/// least one decimal digit.
pub open spec fn parse_u64_spec(s: Seq<char>) -> Result<u64, ParseError> {
    if s.len() == 0 {
        Err(ParseError::Empty)
    } else if s[0] == '+' {
        if s.len() == 1 {
            Err(ParseError::InvalidDigit)
        } else {
            scan_digits(s, 1, 0)
        }
    } else {
        scan_digits(s, 0, 0)
    }
}

/// The decimal digits of `n`, most significant first, without leading zeros.
pub open spec fn decimal(n: nat) -> Seq<char>
    decreases n,
{
    if n < 10 {
        seq![digit_char(n as int)]
    } else {
        decimal(n / 10).push(digit_char((n % 10) as int))
    }
}

/// The value that a string of digits spells.
pub open spec fn digits_value(s: Seq<char>) -> int
    decreases s.len(),
{
    if s.len() == 0 {
        0
    } else {
        digits_value(s.drop_last()) * 10 + digit_value(s.last())
    }
}

pub open spec fn all_digits(s: Seq<char>) -> bool {
    forall|i: int| 0 <= i < s.len() ==> is_digit(#[trigger] s[i])
}

proof fn lemma_digit_char(d: int)
    requires
        0 <= d < 10,
    ensures
        is_digit(digit_char(d)),
        digit_value(digit_char(d)) == d,
{
}

proof fn lemma_decimal_digits(n: nat)
    ensures
        all_digits(decimal(n)),
        decimal(n).len() >= 1,
        digits_value(decimal(n)) == n,
    decreases n,
{
    if n < 10 {
        lemma_digit_char(n as int);
        assert(decimal(n).drop_last() =~= Seq::<char>::empty());
        assert(digits_value(decimal(n)) == digits_value(decimal(n).drop_last()) * 10 + digit_value(decimal(n).last()));
    } else {
        lemma_digit_char((n % 10) as int);
        lemma_decimal_digits(n / 10);
        let d = decimal(n / 10).push(digit_char((n % 10) as int));
        assert(d.drop_last() =~= decimal(n / 10));
        assert(d.last() == digit_char((n % 10) as int));
        assert((n / 10) * 10 + n % 10 == n);
        assert(digits_value(d) == digits_value(decimal(n / 10)) * 10 + digit_value(d.last()));
        assert forall|i: int| 0 <= i < d.len() implies is_digit(#[trigger] d[i]) by {
            if i < d.len() - 1 {
                assert(d[i] == decimal(n / 10)[i]);
            }
        }
    }
}

proof fn lemma_prefix_value(s: Seq<char>, k: int)
    requires
        all_digits(s),
        0 <= k <= s.len(),
    ensures
        0 <= digits_value(s.take(k)) <= digits_value(s),
    decreases s.len(),
{
    if s.len() > 0 {
        let t = s.drop_last();
        assert(all_digits(t)) by {
            assert forall|i: int| 0 <= i < t.len() implies is_digit(#[trigger] t[i]) by {
                assert(t[i] == s[i]);
            }
        }
        if k == s.len() {
            assert(s.take(k) =~= s);
            lemma_prefix_value(t, t.len() as int);
            assert(t.take(t.len() as int) =~= t);
            assert(is_digit(s[s.len() - 1]));
        } else {
            lemma_prefix_value(t, k);
            assert(t.take(k) =~= s.take(k));
            lemma_prefix_value(t, t.len() as int);
            assert(t.take(t.len() as int) =~= t);
            assert(is_digit(s[s.len() - 1]));
        }
    }
}

proof fn lemma_scan_all_digits(s: Seq<char>, i: int)
    requires
        all_digits(s),
        0 <= i <= s.len(),
        digits_value(s) <= u64::MAX,
    ensures
        scan_digits(s, i, digits_value(s.take(i))) == Ok::<u64, ParseError>(
            digits_value(s) as u64,
        ),
    decreases s.len() - i,
{
    if i == s.len() {
        assert(s.take(i) =~= s);
    } else {
        let next = s.take(i + 1);
        assert(next.drop_last() =~= s.take(i));
        assert(next.last() == s[i]);
        lemma_prefix_value(s, i + 1);
        assert(is_digit(s[i]));
        lemma_scan_all_digits(s, i + 1);
    }
}

/// Reading back the text that `decimal` writes gives the number again.
pub proof fn lemma_parse_decimal(n: u64)
    ensures
        parse_u64_spec(decimal(n as nat)) == Ok::<u64, ParseError>(n),
{
    lemma_decimal_digits(n as nat);
    let s = decimal(n as nat);
    assert(is_digit(s[0]));
    lemma_scan_all_digits(s, 0);
    assert(s.take(0) =~= Seq::<char>::empty());
}

/// Appends one character; `String::push` of std.
#[verifier::external_body]
pub(crate) fn push_char(s: &mut String, c: char)
    ensures
        final(s)@ == old(s)@.push(c),
{
    s.push(c);
}

/// Reads a decimal number as `str::parse::<u64>` of std does.
pub fn parse_u64(text: &str) -> (res: Result<u64, ParseError>)
    ensures
        res == parse_u64_spec(text@),
{
    let len = text.unicode_len();
    if len == 0 {
        return Err(ParseError::Empty);
    }
    let mut i: usize = 0;
    if text.get_char(0) == '+' {
        if len == 1 {
            return Err(ParseError::InvalidDigit);
        }
        i = 1;
    }
    let start = i;
    let ghost s = text@;
    assert(parse_u64_spec(s) == scan_digits(s, start as int, 0));
    let mut acc: u64 = 0;
    while i < len
        invariant
            s == text@,
            len == s.len(),
            start <= i <= len,
            parse_u64_spec(s) == scan_digits(s, start as int, 0),
            scan_digits(s, start as int, 0) == scan_digits(s, i as int, acc as int),
        decreases len - i,
    {
        let c = text.get_char(i);
        if !('0' <= c && c <= '9') {
            return Err(ParseError::InvalidDigit);
        }
        let d: u64 = (c as u32 - '0' as u32) as u64;
        assert(d == digit_value(c));
        let m = acc.checked_mul(10);
        match m {
            None => {
                return Err(ParseError::Overflow);
            },
            Some(m) => {
                match m.checked_add(d) {
                    None => {
                        return Err(ParseError::Overflow);
                    },
                    Some(v) => {
                        acc = v;
                    },
                }
            },
        }
        i = i + 1;
    }
    Ok(acc)
}

/// Writes `n` in decimal, as `u64::to_string` of std does.
pub fn format_u64(n: u64) -> (res: String)
    ensures
        res@ == decimal(n as nat),
{
    format_u128(n as u128)
}

/// Writes `n` in decimal, as `u128::to_string` of std does.
pub fn format_u128(n: u128) -> (res: String)
    ensures
        res@ == decimal(n as nat),
{
    let mut rev: Vec<char> = Vec::new();
    let mut m: u128 = n;
    // digits of `n` from the least significant one
    while m >= 10
        invariant
            decimal(n as nat) == decimal(m as nat) + rev@.reverse(),
        decreases m,
    {
        let d = m % 10;
        let c = ((d as u8) + 48u8) as char;
        assert(c == digit_char(d as int)) by {
            assert(d < 10);
        }
        let ghost old_rev = rev@;
        rev.push(c);
        assert(decimal(m as nat) == decimal((m / 10) as nat).push(c));
        assert(rev@.reverse() =~= seq![c] + old_rev.reverse());
        assert(decimal(m as nat) + old_rev.reverse() =~= decimal((m / 10) as nat) + rev@.reverse());
        m = m / 10;
    }
    let first = ((m as u8) + 48u8) as char;
    let mut res = String::new();
    push_char(&mut res, first);
    assert(res@ =~= decimal(m as nat));
    let mut j: usize = rev.len();
    while j > 0
        invariant
            j <= rev.len(),
            decimal(n as nat) == decimal(m as nat) + rev@.reverse(),
            res@ == decimal(m as nat) + rev@.reverse().take((rev.len() - j) as int),
        decreases j,
    {
        j = j - 1;
        let ghost before = res@;
        push_char(&mut res, rev[j]);
        assert(rev@.reverse()[(rev.len() - 1 - j) as int] == rev@[j as int]);
        assert(rev@.reverse().take((rev.len() - j) as int) =~= rev@.reverse().take(
            (rev.len() - 1 - j) as int,
        ).push(rev@[j as int]));
    }
    assert(rev@.reverse().take(rev.len() as int) =~= rev@.reverse());
    res
}

} // verus!
