//! Decimal numerals: the text of an integer, and the integer that a text denotes.
//!
//! Strings are modelled by their view, a `Seq<char>`. A numeral is read with the
//! leading digit first; an optional `+` may stand in front of the digits of an
//! unsigned numeral, and nothing else may.

use crate::text::chars_of;
use vstd::prelude::*;

verus! {

/// Whether `c` is one of the ten ASCII digits.
pub open spec fn is_digit(c: char) -> bool {
    '0' <= c && c <= '9'
}

/// The number that the digit `c` stands for.
pub open spec fn digit_value(c: char) -> nat
    recommends
        is_digit(c),
{
    (c as u32 - '0' as u32) as nat
}

/// The digit that stands for `d`.
pub open spec fn digit_char(d: nat) -> char
    recommends
        d < 10,
{
    (d + 48) as u8 as char
}

/// Whether every character of `s` is a digit.
pub open spec fn all_digits(s: Seq<char>) -> bool {
    forall|i: int| 0 <= i < s.len() ==> is_digit(#[trigger] s[i])
}

/// The number that a string of digits denotes; the empty string denotes 0.
pub open spec fn digits_value(s: Seq<char>) -> nat
    decreases s.len(),
{
    if s.len() == 0 {
        0
    } else {
        digits_value(s.drop_last()) * 10 + digit_value(s.last())
    }
}

/// The shortest string of digits that denotes `n`.
pub open spec fn numeral(n: nat) -> Seq<char>
    decreases n,
{
    if n < 10 {
        seq![digit_char(n)]
    } else {
        numeral(n / 10).push(digit_char(n % 10))
    }
}

/// The text of a signed integer: a `-` in front of the numeral of a negative one.
pub open spec fn signed_numeral(i: int) -> Seq<char> {
    if i < 0 {
        seq!['-'] + numeral((-i) as nat)
    } else {
        numeral(i as nat)
    }
}

/// The digits of an unsigned numeral: `s` without the one `+` that may lead it.
pub open spec fn unsigned_digits(s: Seq<char>) -> Seq<char> {
    if s.len() > 0 && s[0] == '+' {
        s.skip(1)
    } else {
        s
    }
}

/// What `s` denotes as an unsigned integer no larger than `max`.
///
/// `s` is an optional `+` followed by at least one digit and nothing else; any
/// other text, and any numeral above `max`, denotes nothing.
pub open spec fn parse_unsigned(s: Seq<char>, max: nat) -> Option<nat> {
    let digits = unsigned_digits(s);
    if digits.len() > 0 && all_digits(digits) && digits_value(digits) <= max {
        Some(digits_value(digits))
    } else {
        None
    }
}

/// A string of digits denotes at least as much as each of its prefixes.
pub proof fn lemma_prefix_value(s: Seq<char>, k: int)
    requires
        0 <= k <= s.len(),
    ensures
        digits_value(s.take(k)) <= digits_value(s),
    decreases s.len() - k,
{
    if k == s.len() {
        assert(s.take(k) =~= s);
    } else {
        lemma_prefix_value(s.drop_last(), k);
        assert(s.drop_last().take(k) =~= s.take(k));
    }
}

/// A numeral is a non-empty string of digits, and it denotes the number it was
/// written for.
pub proof fn lemma_numeral_value(n: nat)
    ensures
        numeral(n).len() > 0,
        all_digits(numeral(n)),
        digits_value(numeral(n)) == n,
    decreases n,
{
    if n < 10 {
        let s = numeral(n);
        assert(s.drop_last() =~= Seq::<char>::empty());
        assert(digits_value(s.drop_last()) == 0);
    } else {
        lemma_numeral_value(n / 10);
        let s = numeral(n);
        assert(s.drop_last() =~= numeral(n / 10));
        assert(s.last() == digit_char(n % 10));
    }
}

/// Reading back what was written: the numeral of `n` parses to `n` under every
/// bound that admits `n`.
pub proof fn lemma_parse_numeral(n: nat, max: nat)
    requires
        n <= max,
    ensures
        parse_unsigned(numeral(n), max) == Some(n),
{
    lemma_numeral_value(n);
    assert(is_digit(numeral(n)[0]));
}

/// Different numbers have different numerals.
pub proof fn lemma_numeral_injective(a: nat, b: nat)
    requires
        numeral(a) == numeral(b),
    ensures
        a == b,
{
    lemma_numeral_value(a);
    lemma_numeral_value(b);
}

/// Different integers have different texts.
pub proof fn lemma_signed_numeral_injective(a: int, b: int)
    requires
        signed_numeral(a) == signed_numeral(b),
    ensures
        a == b,
{
    if a < 0 {
        lemma_numeral_value((-a) as nat);
    } else {
        lemma_numeral_value(a as nat);
    }
    if b < 0 {
        lemma_numeral_value((-b) as nat);
    } else {
        lemma_numeral_value(b as nat);
    }
    assert(signed_numeral(a)[0] == signed_numeral(b)[0]);
    if a < 0 && b < 0 {
        assert(numeral((-a) as nat) =~= signed_numeral(a).skip(1));
        assert(numeral((-b) as nat) =~= signed_numeral(b).skip(1));
        lemma_numeral_injective((-a) as nat, (-b) as nat);
    } else if a >= 0 && b >= 0 {
        lemma_numeral_injective(a as nat, b as nat);
    } else if a < 0 {
        assert(is_digit(numeral(b as nat)[0]));
    } else {
        assert(is_digit(numeral(a as nat)[0]));
    }
}

/// Parses `chars` as an unsigned numeral no larger than `max`.
pub fn parse_chars(chars: &[char], max: u64) -> (parsed: Option<u64>)
    ensures
        match parse_unsigned(chars@, max as nat) {
            Some(v) => parsed == Some(v as u64),
            None => parsed is None,
        },
{
    let end: usize = chars.len();
    let mut i: usize = 0;
    if i < end && chars[i] == '+' {
        i = i + 1;
    }
    let start: usize = i;
    let ghost digits = chars@.subrange(start as int, end as int);
    assert(digits =~= unsigned_digits(chars@));
    if i == end {
        return None;
    }
    let mut acc: u64 = 0;
    while i < end
        invariant
            start <= i <= end == chars@.len(),
            digits == chars@.subrange(start as int, end as int),
            digits == unsigned_digits(chars@),
            all_digits(digits.take(i - start)),
            acc as nat == digits_value(digits.take(i - start)),
            acc <= max,
        decreases end - i,
    {
        let c: char = chars[i];
        assert(c == digits[i - start]);
        if !('0' <= c && c <= '9') {
            return None;
        }
        let d: u64 = (c as u32 - '0' as u32) as u64;
        let ghost next = digits.take(i - start + 1);
        assert(next.drop_last() =~= digits.take(i - start));
        assert(next.last() == c);
        assert(digits_value(next) == acc * 10 + d);
        if d > max || acc > (max - d) / 10 {
            proof {
                lemma_prefix_value(digits, i - start + 1);
            }
            return None;
        }
        acc = acc * 10 + d;
        i = i + 1;
    }
    assert(digits.take(i - start) =~= digits);
    Some(acc)
}

/// Parses `text` as an unsigned integer of 64 bits.
pub fn parse_u64(text: &str) -> (parsed: Option<u64>)
    ensures
        match parse_unsigned(text@, u64::MAX as nat) {
            Some(v) => parsed == Some(v as u64),
            None => parsed is None,
        },
{
    let chars = chars_of(text);
    parse_chars(chars.as_slice(), u64::MAX)
}

/// The one-character string of the digit that stands for `d`.
fn digit_str(d: u64) -> (s: &'static str)
    requires
        d < 10,
    ensures
        s@ == seq![digit_char(d as nat)],
{
    proof {
        reveal_strlit("0");
        reveal_strlit("1");
        reveal_strlit("2");
        reveal_strlit("3");
        reveal_strlit("4");
        reveal_strlit("5");
        reveal_strlit("6");
        reveal_strlit("7");
        reveal_strlit("8");
        reveal_strlit("9");
    }
    let s: &'static str = match d {
        0 => "0",
        1 => "1",
        2 => "2",
        3 => "3",
        4 => "4",
        5 => "5",
        6 => "6",
        7 => "7",
        8 => "8",
        _ => "9",
    };
    assert(s@ =~= seq![digit_char(d as nat)]);
    s
}

/// Appends the numeral of `n` to `out`.
pub fn write_u64(n: u64, out: &mut String)
    ensures
        final(out)@ == old(out)@ + numeral(n as nat),
    decreases n,
{
    if n >= 10 {
        write_u64(n / 10, out);
    }
    out.append(digit_str(n % 10));
    assert(final(out)@ =~= old(out)@ + numeral(n as nat));
}

/// Appends the text of the signed integer `n` to `out`.
pub fn write_i64(n: i64, out: &mut String)
    ensures
        final(out)@ == old(out)@ + signed_numeral(n as int),
{
    if n < 0 {
        proof {
            reveal_strlit("-");
        }
        out.append("-");
        let magnitude: u64 = (-(n + 1)) as u64 + 1;
        write_u64(magnitude, out);
        assert(final(out)@ =~= old(out)@ + signed_numeral(n as int));
    } else {
        write_u64(n as u64, out);
    }
}

} // verus!
