//! The text format of an energy counter file: one or more decimal digits
//! followed by a line terminator. Anything else reads as zero.
use vstd::prelude::*;

verus! {

/// A decimal digit character.
pub open spec fn is_digit(c: char) -> bool {
    '0' <= c && c <= '9'
}

/// The value of a decimal digit character.
pub open spec fn digit_value(c: char) -> nat {
    (c as int - '0' as int) as nat
}

/// The value of a sequence of decimal digits, most significant first.
pub open spec fn digits_value(s: Seq<char>) -> nat
    decreases s.len(),
{
    if s.len() == 0 {
        0
    } else {
        digits_value(s.drop_last()) * 10 + digit_value(s.last())
    }
}

/// How many decimal digits the text starts with.
pub open spec fn leading_digits(s: Seq<char>) -> nat
    decreases s.len(),
{
    if s.len() == 0 || !is_digit(s[0]) {
        0
    } else {
        1 + leading_digits(s.drop_first())
    }
}

/// The text starts with one or more digits followed by a line terminator.
pub open spec fn is_counter_text(s: Seq<char>) -> bool {
    let n = leading_digits(s) as int;
    1 <= n && n < s.len() && s[n] == '\n'
}

/// The number that a well-formed counter text holds.
pub open spec fn counter_number(s: Seq<char>) -> nat {
    digits_value(s.take(leading_digits(s) as int))
}

/// What a counter file reads as: its number when the text is well formed and
/// the number fits in 128 bits, zero otherwise.
pub open spec fn counter_reading(s: Seq<char>) -> u128 {
    if is_counter_text(s) && counter_number(s) <= u128::MAX {
        counter_number(s) as u128
    } else {
        0
    }
}

proof fn lemma_leading_digits_exact(s: Seq<char>, n: int)
    requires
        0 <= n <= s.len(),
        forall|i: int| 0 <= i < n ==> is_digit(#[trigger] s[i]),
        n == s.len() || !is_digit(s[n]),
    ensures
        leading_digits(s) == n,
    decreases s.len(),
{
    if n > 0 {
        let t = s.drop_first();
        assert forall|i: int| 0 <= i < n - 1 implies is_digit(#[trigger] t[i]) by {
            assert(t[i] == s[i + 1]);
        }
        if n < s.len() {
            assert(t[n - 1] == s[n]);
        }
        lemma_leading_digits_exact(t, n - 1);
    }
}

/// Reads the value of an energy counter file: `"123\n"` is 123, and text that
/// does not start with digits and a line terminator reads as 0. Text after the
/// line terminator is ignored.
pub fn parse_counter(text: &str) -> (r: u128)
    ensures
        r == counter_reading(text@),
{
    let len = text.unicode_len();
    let mut n: usize = 0;
    let mut value: u128 = 0;
    let mut fits = true;
    while n < len && is_digit_char(text.get_char(n))
        invariant
            len == text@.len(),
            n <= len,
            forall|i: int| 0 <= i < n ==> is_digit(#[trigger] text@[i]),
            fits ==> value == digits_value(text@.take(n as int)),
            !fits ==> digits_value(text@.take(n as int)) > u128::MAX,
        decreases len - n,
    {
        let c = text.get_char(n);
        let d = (c as u32 - '0' as u32) as u128;
        proof {
            let t = text@.take(n as int + 1);
            assert(t.drop_last() =~= text@.take(n as int));
            assert(t.last() == c);
        }
        if fits {
            if value <= (u128::MAX - d) / 10 {
                value = value * 10 + d;
            } else {
                fits = false;
            }
        } else {
            proof {
                assert(digits_value(text@.take(n as int + 1)) >= digits_value(text@.take(n as int)) * 10);
            }
        }
        n = n + 1;
    }
    proof {
        lemma_leading_digits_exact(text@, n as int);
    }
    if n >= 1 && n < len && text.get_char(n) == '\n' && fits {
        value
    } else {
        0
    }
}

fn is_digit_char(c: char) -> (r: bool)
    ensures
        r == is_digit(c),
{
    '0' <= c && c <= '9'
}

} // verus!
