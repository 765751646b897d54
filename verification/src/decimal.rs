//! Amounts as decimal text: reading a `u64` from a command-line argument and
//! writing one for a report.

use vstd::prelude::*;
use vstd::string::*;

verus! {

/// Whether the character is one of `0` to `9`.
pub open spec fn is_digit(c: char) -> bool {
    '0' <= c && c <= '9'
}

/// The value of a decimal digit.
pub open spec fn digit_value(c: char) -> nat {
    if is_digit(c) {
        (c as u8 - '0' as u8) as nat
    } else {
        0
    }
}

/// Whether every character is a decimal digit.
pub open spec fn all_digits(digits: Seq<char>) -> bool {
    forall|i: int| 0 <= i < digits.len() ==> is_digit(#[trigger] digits[i])
}

/// The number that a run of decimal digits writes, the first digit weighing
/// most. The empty run writes zero.
pub open spec fn digits_value(digits: Seq<char>) -> nat
    decreases digits.len(),
{
    if digits.len() == 0 {
        0
    } else {
        digits_value(digits.drop_last()) * 10 + digit_value(digits.last())
    }
}

/// The text without one leading `+`, if it has one.
pub open spec fn strip_plus(s: Seq<char>) -> Seq<char> {
    if s.len() >= 1 && s[0] == '+' {
        s.subrange(1, s.len() as int)
    } else {
        s
    }
}

/// The amount that a text denotes: an optional `+`, then at least one
/// decimal digit and nothing else, with a value that fits in 64 bits.
/// Leading zeros are allowed. Any other text denotes nothing.
pub open spec fn parse_decimal(s: Seq<char>) -> Option<u64> {
    let digits = strip_plus(s);
    if digits.len() > 0 && all_digits(digits) && digits_value(digits) <= u64::MAX {
        Some(digits_value(digits) as u64)
    } else {
        None
    }
}

/// The decimal digits of a number, without leading zeros; zero is `0`.
pub open spec fn decimal_digits(n: nat) -> Seq<char>
    decreases n,
{
    if n < 10 {
        seq![('0' as u8 + n) as u8 as char]
    } else {
        decimal_digits(n / 10).push(('0' as u8 + n % 10) as u8 as char)
    }
}

/// A longer run of digits writes a number at least as large as any of its
/// prefixes does.
pub proof fn lemma_prefix_value(digits: Seq<char>, k: int)
    requires
        0 <= k <= digits.len(),
    ensures
        digits_value(digits.take(k)) <= digits_value(digits),
    decreases digits.len(),
{
    if k == digits.len() {
        assert(digits.take(k) =~= digits);
    } else {
        lemma_prefix_value(digits.drop_last(), k);
        assert(digits.drop_last().take(k) =~= digits.take(k));
    }
}

/// Reads an amount from decimal text.
pub fn parse_u64(s: &str) -> (r: Option<u64>)
    ensures
        r == parse_decimal(s@),
{
    let mut value: u64 = 0;
    let mut signed = false;
    let mut any_digit = false;
    let mut first = true;
    for c in it: s.chars()
        invariant
            it.seq() == s@,
            first == (it.index() == 0),
            signed ==> it.index() >= 1 && s@[0] == '+',
            !signed && it.index() >= 1 ==> s@[0] != '+',
            any_digit == (it.index() > (if signed { 1int } else { 0int })),
            ({
                let start = if signed { 1int } else { 0int };
                let seen = s@.subrange(start, it.index());
                it.index() >= start ==> all_digits(seen) && value == digits_value(seen)
            }),
    {
        let ghost k = it.index();
        let ghost start = if signed { 1int } else { 0int };
        assert(c == s@[k]);
        if first && c == '+' {
            signed = true;
            assert(s@.subrange(1, k + 1) =~= Seq::<char>::empty());
        } else if '0' <= c && c <= '9' {
            let d: u64 = (c as u8 - '0' as u8) as u64;
            let ghost seen = s@.subrange(start, k);
            let ghost next = s@.subrange(start, k + 1);
            assert(next.drop_last() =~= seen);
            assert(next.last() == c);
            assert(digits_value(next) == value * 10 + d);
            if value > (u64::MAX - d) / 10 {
                proof {
                    let digits = strip_plus(s@);
                    assert(digits =~= s@.subrange(start, s@.len() as int));
                    assert(digits.take(k + 1 - start) =~= next);
                    lemma_prefix_value(digits, k + 1 - start);
                }
                return None;
            }
            value = value * 10 + d;
            any_digit = true;
        } else {
            proof {
                let digits = strip_plus(s@);
                assert(digits =~= s@.subrange(start, s@.len() as int));
                assert(digits[k - start] == c);
                assert(!is_digit(digits[k - start]));
            }
            return None;
        }
        first = false;
    }
    proof {
        let start = if signed { 1int } else { 0int };
        assert(strip_plus(s@) =~= s@.subrange(start, s@.len() as int));
    }
    if any_digit {
        Some(value)
    } else {
        None
    }
}

/// The one-character text of a value below ten.
fn digit_text(d: u64) -> (r: &'static str)
    requires
        d < 10,
    ensures
        r@ == seq![('0' as u8 + d) as u8 as char],
{
    proof {
        reveal_strlit("0");
        reveal_strlit("1");
        reveal_strlit("2");
        reveal_strlit("3");
        reveal_strlit("4");
        reveal_strlit("5");
        reveal_strlit("6");
        reveal_strlit("7");
        reveal_strlit("8");
        reveal_strlit("9");
    }
    let r = if d == 0 {
        "0"
    } else if d == 1 {
        "1"
    } else if d == 2 {
        "2"
    } else if d == 3 {
        "3"
    } else if d == 4 {
        "4"
    } else if d == 5 {
        "5"
    } else if d == 6 {
        "6"
    } else if d == 7 {
        "7"
    } else if d == 8 {
        "8"
    } else {
        "9"
    };
    assert(r@ =~= seq![('0' as u8 + d) as u8 as char]);
    r
}

/// Appends the decimal digits of `n` to `out`.
fn write_decimal(n: u64, out: &mut String)
    ensures
        final(out)@ == old(out)@ + decimal_digits(n as nat),
    decreases n,
{
    if n >= 10 {
        write_decimal(n / 10, out);
    }
    out.append(digit_text(n % 10));
    assert(out@ =~= old(out)@ + decimal_digits(n as nat));
}

/// Writes an amount as decimal text, without sign or leading zeros.
pub fn format_u64(n: u64) -> (r: String)
    ensures
        r@ == decimal_digits(n as nat),
{
    let mut out = String::new();
    write_decimal(n, &mut out);
    assert(out@ =~= decimal_digits(n as nat));
    out
}

/// What `decimal_digits` writes is a non-empty run of digits, without a
/// sign, whose value is the number written.
pub proof fn lemma_decimal_digits(n: nat)
    ensures
        decimal_digits(n).len() > 0,
        all_digits(decimal_digits(n)),
        digits_value(decimal_digits(n)) == n,
    decreases n,
{
    let text = decimal_digits(n);
    if n < 10 {
        assert(text.drop_last() =~= Seq::<char>::empty());
        assert(digits_value(text.drop_last()) == 0);
    } else {
        lemma_decimal_digits(n / 10);
        assert(text.drop_last() =~= decimal_digits(n / 10));
    }
}

/// Reading what was written gives the amount back.
pub proof fn lemma_parse_format(n: u64)
    ensures
        parse_decimal(decimal_digits(n as nat)) == Some(n),
{
    lemma_decimal_digits(n as nat);
    let text = decimal_digits(n as nat);
    assert(is_digit(text[0]));
    assert(strip_plus(text) == text);
}

} // verus!
