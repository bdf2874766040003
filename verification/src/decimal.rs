//! Reading a non-negative whole number from text.
//!
//! A number is written as one or more of the digits `0` to `9`, with at most
//! one `+` before them and nothing else: no blanks, no minus sign, no
//! separators. Leading zeros are allowed. A text is read as a whole or not at
//! all.

use vstd::prelude::*;

verus! {

/// Whether `c` is one of the ten decimal digits.
pub open spec fn is_digit(c: char) -> bool {
    '0' <= c && c <= '9'
}

/// What the digit `c` counts for; 0 for any other character.
pub open spec fn digit_value(c: char) -> nat {
    if is_digit(c) {
        (c as int - '0' as int) as nat
    } else {
        0
    }
}

/// Whether `s` holds digits only.
pub open spec fn all_digits(s: Seq<char>) -> bool {
    forall|i: int| 0 <= i < s.len() ==> is_digit(#[trigger] s[i])
}

/// The number that the digits of `s` write in base ten, the last digit
/// counting once.
pub open spec fn digits_value(s: Seq<char>) -> nat
    decreases s.len(),
{
    if s.len() == 0 {
        0
    } else {
        10 * digits_value(s.drop_last()) + digit_value(s.last())
    }
}

/// `s` without the one `+` that may stand in front.
pub open spec fn after_sign(s: Seq<char>) -> Seq<char> {
    if s.len() > 0 && s[0] == '+' {
        s.subrange(1, s.len() as int)
    } else {
        s
    }
}

/// The number that `s` writes, if it writes one.
pub open spec fn decimal(s: Seq<char>) -> Option<nat> {
    let digits = after_sign(s);
    if digits.len() > 0 && all_digits(digits) {
        Some(digits_value(digits))
    } else {
        None
    }
}

/// The number that `s` writes, if it writes one that is at most `max`.
pub open spec fn decimal_up_to(s: Seq<char>, max: nat) -> Option<nat> {
    match decimal(s) {
        Some(value) => if value <= max {
            Some(value)
        } else {
            None
        },
        None => None,
    }
}

/// A text with a character that is neither a digit nor the one `+` in front
/// writes no number.
pub proof fn lemma_stray_character_is_no_number(s: Seq<char>, i: int)
    requires
        0 <= i < s.len(),
        !is_digit(s[i]),
        i > 0 || s[i] != '+',
    ensures
        decimal(s) is None,
{
    let digits = after_sign(s);
    if s[0] == '+' {
        assert(digits[i - 1] == s[i]);
    } else {
        assert(digits[i] == s[i]);
    }
}

/// A text that continues another one writes a number at least as large.
pub proof fn lemma_digits_value_grows(s: Seq<char>, k: int)
    requires
        0 <= k <= s.len(),
    ensures
        digits_value(s.subrange(0, k)) <= digits_value(s),
    decreases s.len(),
{
    if k == s.len() {
        assert(s.subrange(0, k) =~= s);
    } else {
        lemma_digits_value_grows(s.drop_last(), k);
        assert(s.drop_last().subrange(0, k) =~= s.subrange(0, k));
    }
}

/// One more digit behind `s` multiplies what was written by ten and adds the
/// digit.
pub proof fn lemma_digits_value_push(s: Seq<char>, c: char)
    ensures
        digits_value(s.push(c)) == 10 * digits_value(s) + digit_value(c),
{
    assert(s.push(c).drop_last() =~= s);
}

/// Where the digits begin in a text that has a sign, or has none.
spec fn first_digit(signed: bool) -> int {
    if signed {
        1
    } else {
        0
    }
}

/// Reads `text` as a number of at most `max`.
fn parse_up_to(text: &str, max: u64) -> (number: Option<u64>)
    requires
        max <= u32::MAX,
    ensures
        number == match decimal_up_to(text@, max as nat) {
            Some(value) => Some(value as u64),
            None => None,
        },
{
    let ghost s = text@;
    let mut value: u64 = 0;
    let mut at_front = true;
    let mut signed = false;
    let mut any_digit = false;
    for c in it: text.chars()
        invariant
            s == text@,
            it.seq() == s,
            at_front <==> it.index() == 0,
            signed <==> (it.index() > 0 && s[0] == '+'),
            any_digit <==> it.index() > first_digit(signed),
            all_digits(s.subrange(first_digit(signed), it.index())),
            value == digits_value(s.subrange(first_digit(signed), it.index())),
            value <= max <= u32::MAX,
    {
        let ghost read = it.index();
        assert(c == s[read]);
        if at_front && c == '+' {
            signed = true;
            assert(s.subrange(1, 1) =~= Seq::<char>::empty());
        } else if '0' <= c && c <= '9' {
            let digit: u64 = (c as u32 - '0' as u32) as u64;
            let ghost from = first_digit(signed);
            proof {
                lemma_digits_value_push(s.subrange(from, read), c);
                assert(s.subrange(from, read).push(c) =~= s.subrange(from, read + 1));
            }
            value = 10 * value + digit;
            any_digit = true;
            if value > max {
                proof {
                    let digits = after_sign(s);
                    assert(digits =~= s.subrange(from, s.len() as int));
                    lemma_digits_value_grows(digits, read + 1 - from);
                    assert(digits.subrange(0, read + 1 - from) =~= s.subrange(from, read + 1));
                }
                return None;
            }
        } else {
            proof {
                let from = first_digit(signed);
                let digits = after_sign(s);
                assert(digits =~= s.subrange(from, s.len() as int));
                assert(digits[read - from] == c);
            }
            return None;
        }
        at_front = false;
    }
    proof {
        assert(after_sign(s) =~= s.subrange(first_digit(signed), s.len() as int));
    }
    if any_digit {
        Some(value)
    } else {
        None
    }
}

/// Reads `text` as a number that fits in eight bits.
pub fn parse_u8(text: &str) -> (number: Option<u8>)
    ensures
        number == match decimal_up_to(text@, u8::MAX as nat) {
            Some(value) => Some(value as u8),
            None => None,
        },
{
    match parse_up_to(text, 255) {
        Some(value) => Some(value as u8),
        None => None,
    }
}

/// Reads `text` as a number that fits in thirty-two bits.
pub fn parse_u32(text: &str) -> (number: Option<u32>)
    ensures
        number == match decimal_up_to(text@, u32::MAX as nat) {
            Some(value) => Some(value as u32),
            None => None,
        },
{
    match parse_up_to(text, 0xffff_ffff) {
        Some(value) => Some(value as u32),
        None => None,
    }
}

} // verus!
