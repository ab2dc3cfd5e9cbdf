//! Unsigned decimal numbers as text: reading them and writing them.
//!
//! A number is written as an optional `+` followed by one or more of the
//! digits `0` to `9`. Nothing else is accepted: no sign alone, no blanks, no
//! separators. Leading zeros are allowed and do not change the value.

use vstd::prelude::*;
use vstd::std_specs::iter::IteratorSpec;
use vstd::string::StringExecFns;

verus! {

pub open spec fn is_digit(c: char) -> bool {
    '0' <= c <= '9'
}

/// The value of the digit `c`.
pub open spec fn digit_value(c: char) -> nat
    recommends
        is_digit(c),
{
    (c as int - '0' as int) as nat
}

pub open spec fn all_digits(s: Seq<char>) -> bool {
    forall|i: int| 0 <= i < s.len() ==> is_digit(#[trigger] s[i])
}

/// The value of a run of digits, the most significant first.
pub open spec fn digits_value(s: Seq<char>) -> nat
    decreases s.len(),
{
    if s.len() == 0 {
        0
    } else {
        digits_value(s.drop_last()) * 10 + digit_value(s.last())
    }
}

/// `s` without its leading `+`, if it has one.
pub open spec fn unsigned_part(s: Seq<char>) -> Seq<char> {
    if s.len() > 0 && s[0] == '+' {
        s.drop_first()
    } else {
        s
    }
}

/// The number that `s` writes, or `None` if `s` writes none.
pub open spec fn decimal(s: Seq<char>) -> Option<nat> {
    let digits = unsigned_part(s);
    if digits.len() > 0 && all_digits(digits) {
        Some(digits_value(digits))
    } else {
        None
    }
}

/// The number that `s` writes, if it writes one that is at most `max`.
pub open spec fn decimal_up_to(s: Seq<char>, max: nat) -> Option<nat> {
    match decimal(s) {
        Some(n) if n <= max => Some(n),
        _ => None,
    }
}

/// The character that writes the digit `d`.
pub open spec fn digit_char(d: nat) -> char
    recommends
        d < 10,
{
    if d == 0 {
        '0'
    } else if d == 1 {
        '1'
    } else if d == 2 {
        '2'
    } else if d == 3 {
        '3'
    } else if d == 4 {
        '4'
    } else if d == 5 {
        '5'
    } else if d == 6 {
        '6'
    } else if d == 7 {
        '7'
    } else if d == 8 {
        '8'
    } else {
        '9'
    }
}

/// `n` written in decimal, without sign and without leading zeros.
pub open spec fn decimal_text(n: nat) -> Seq<char>
    decreases n,
{
    if n < 10 {
        seq![digit_char(n)]
    } else {
        decimal_text(n / 10).push(digit_char(n % 10))
    }
}

/// A run of digits is worth at least as much as any of its beginnings.
pub proof fn lemma_digits_value_grows(s: Seq<char>, k: int)
    requires
        0 <= k <= s.len(),
    ensures
        digits_value(s.take(k)) <= digits_value(s),
    decreases s.len() - k,
{
    if k == s.len() {
        assert(s.take(k) =~= s);
    } else {
        lemma_digits_value_grows(s.drop_last(), k);
        assert(s.drop_last().take(k) =~= s.take(k));
    }
}

/// What is written by `decimal_text` is read back by `decimal`.
pub proof fn lemma_decimal_text_reads_back(n: nat)
    ensures
        decimal_text(n).len() > 0,
        all_digits(decimal_text(n)),
        decimal_text(n)[0] != '+',
        digits_value(decimal_text(n)) == n,
        decimal(decimal_text(n)) == Some(n),
    decreases n,
{
    let text = decimal_text(n);
    if n < 10 {
        assert(digits_value(text.drop_last()) == 0);
    } else {
        lemma_decimal_text_reads_back(n / 10);
        let front = decimal_text(n / 10);
        assert(text.drop_last() =~= front);
        assert forall|i: int| 0 <= i < text.len() implies is_digit(#[trigger] text[i]) by {
            if i < front.len() {
                assert(text[i] == front[i]);
            }
        }
    }
}

/// Reads the decimal number that `s` writes, if it is at most `max`.
pub fn parse_decimal(s: &str, max: u32) -> (value: Option<u32>)
    ensures
        match value {
            Some(n) => decimal_up_to(s@, max as nat) == Some(n as nat),
            None => decimal_up_to(s@, max as nat) is None,
        },
{
    let mut rest = s.chars();
    let mut next = rest.next();
    if next == Some('+') {
        next = rest.next();
    }
    let ghost digits = unsigned_part(s@);
    let ghost mut seen: int = 0;
    proof {
        if s@.len() > 0 && s@[0] == '+' {
            assert(s@.skip(1).skip(1) =~= digits.skip(1));
        } else {
            assert(s@.skip(0) =~= digits);
        }
    }
    if next.is_none() {
        return None;
    }
    let mut value: u64 = 0;
    loop
        invariant
            0 <= seen <= digits.len(),
            digits.len() > 0,
            digits == unsigned_part(s@),
            match next {
                Some(c) => seen < digits.len() && c == digits[seen] && rest.remaining()
                    == digits.skip(seen + 1),
                None => seen == digits.len(),
            },
            all_digits(digits.take(seen)),
            value == digits_value(digits.take(seen)),
            value <= max,
        decreases digits.len() - seen,
    {
        match next {
            None => {
                proof {
                    assert(digits.take(seen) =~= digits);
                }
                return Some(value as u32);
            },
            Some(c) => {
                if !('0' <= c && c <= '9') {
                    return None;
                }
                let digit: u64 = (c as u32 - '0' as u32) as u64;
                value = value * 10 + digit;
                proof {
                    let longer = digits.take(seen + 1);
                    assert(longer.drop_last() =~= digits.take(seen));
                    assert forall|i: int| 0 <= i < longer.len() implies is_digit(
                        #[trigger] longer[i],
                    ) by {
                        if i < seen {
                            assert(longer[i] == digits.take(seen)[i]);
                        }
                    }
                    seen = seen + 1;
                }
                if value > max as u64 {
                    proof {
                        lemma_digits_value_grows(digits, seen);
                    }
                    return None;
                }
                next = rest.next();
            },
        }
    }
}

/// Reads a decimal number that fits in eight bits.
pub fn parse_u8(s: &str) -> (value: Option<u8>)
    ensures
        match value {
            Some(n) => decimal_up_to(s@, u8::MAX as nat) == Some(n as nat),
            None => decimal_up_to(s@, u8::MAX as nat) is None,
        },
{
    match parse_decimal(s, 255) {
        Some(n) => Some(n as u8),
        None => None,
    }
}

/// Reads a decimal number that fits in thirty-two bits.
pub fn parse_u32(s: &str) -> (value: Option<u32>)
    ensures
        match value {
            Some(n) => decimal_up_to(s@, u32::MAX as nat) == Some(n as nat),
            None => decimal_up_to(s@, u32::MAX as nat) is None,
        },
{
    parse_decimal(s, u32::MAX)
}

/// The text of one digit.
fn digit_text(d: u32) -> (text: &'static str)
    requires
        d < 10,
    ensures
        text@ == seq![digit_char(d as nat)],
{
    proof {
        reveal_strlit("0");
        reveal_strlit("1");
        reveal_strlit("2");
        reveal_strlit("3");
        reveal_strlit("4");
        reveal_strlit("5");
        reveal_strlit("6");
        reveal_strlit("7");
        reveal_strlit("8");
        reveal_strlit("9");
    }
    if d == 0 {
        "0"
    } else if d == 1 {
        "1"
    } else if d == 2 {
        "2"
    } else if d == 3 {
        "3"
    } else if d == 4 {
        "4"
    } else if d == 5 {
        "5"
    } else if d == 6 {
        "6"
    } else if d == 7 {
        "7"
    } else if d == 8 {
        "8"
    } else {
        "9"
    }
}

/// Writes `n` in decimal at the end of `out`.
pub fn push_decimal(out: &mut String, n: u32)
    ensures
        final(out)@ == old(out)@ + decimal_text(n as nat),
    decreases n,
{
    if n >= 10 {
        push_decimal(out, n / 10);
    }
    out.append(digit_text(n % 10));
}

} // verus!
