//! Unsigned integers in decimal notation.

use crate::text::{chars_of, text_of_range};
use vstd::prelude::*;
use vstd::std_specs::iter::IteratorSpec;

verus! {

/// The character of a decimal digit.
pub open spec fn digit_char(digit: nat) -> char
    recommends
        digit < 10,
{
    ((48 + digit) as u8) as char
}

/// Whether a character is a decimal digit.
pub open spec fn is_digit(c: char) -> bool {
    '0' <= c && c <= '9'
}

/// The value of a decimal digit.
pub open spec fn digit_value(c: char) -> nat
    recommends
        is_digit(c),
{
    (c as u8 - 48) as nat
}

/// The decimal notation of a number, without leading zeros.
pub open spec fn decimal(n: nat) -> Seq<char>
    decreases n,
{
    if n < 10 {
        seq![digit_char(n)]
    } else {
        decimal(n / 10).push(digit_char(n % 10))
    }
}

/// Whether a text is made of decimal digits, and of at least one.
pub open spec fn is_decimal(text: Seq<char>) -> bool {
    text.len() > 0 && forall|i: int| 0 <= i < text.len() ==> is_digit(#[trigger] text[i])
}

/// The number that a run of decimal digits denotes.
pub open spec fn decimal_value(text: Seq<char>) -> nat
    decreases text.len(),
{
    if text.len() == 0 {
        0
    } else {
        decimal_value(text.drop_last()) * 10 + digit_value(text.last())
    }
}

/// The `u64` that a text denotes in decimal notation, if it denotes one.
pub open spec fn decimal_u64(text: Seq<char>) -> Option<u64> {
    if is_decimal(text) && decimal_value(text) <= u64::MAX {
        Some(decimal_value(text) as u64)
    } else {
        None
    }
}

/// The decimal notation of a number is made of digits and denotes the number.
pub proof fn lemma_decimal_round_trip(n: nat)
    ensures
        is_decimal(decimal(n)),
        decimal_value(decimal(n)) == n,
    decreases n,
{
    if n < 10 {
        let text = decimal(n);
        assert(text.drop_last() =~= Seq::<char>::empty());
        assert(decimal_value(text.drop_last()) == 0);
        assert(text.last() == digit_char(n));
    } else {
        lemma_decimal_round_trip(n / 10);
        let head = decimal(n / 10);
        let text = head.push(digit_char(n % 10));
        assert(text.drop_last() =~= head);
        assert(text.last() == digit_char(n % 10));
        assert forall|i: int| 0 <= i < text.len() implies is_digit(#[trigger] text[i]) by {
            if i < head.len() {
                assert(text[i] == head[i]);
            }
        }
    }
}

/// Two numbers with the same decimal notation are the same number.
pub proof fn lemma_decimal_injective(a: nat, b: nat)
    requires
        decimal(a) == decimal(b),
    ensures
        a == b,
{
    lemma_decimal_round_trip(a);
    lemma_decimal_round_trip(b);
}

fn push_decimal(text: &mut String, n: u64)
    ensures
        final(text)@ == old(text)@ + decimal(n as nat),
    decreases n,
{
    if n >= 10 {
        push_decimal(text, n / 10);
    }
    let digit: u8 = (n % 10) as u8;
    text.push((48 + digit) as char);
    proof {
        if n >= 10 {
            assert(old(text)@ + decimal((n / 10) as nat).push(digit_char((n % 10) as nat)) =~= (old(
                text,
            )@ + decimal((n / 10) as nat)).push(digit_char((n % 10) as nat)));
        } else {
            assert(old(text)@ + seq![digit_char(n as nat)] =~= old(text)@.push(
                digit_char(n as nat),
            ));
        }
    }
}

/// Writes a number in decimal notation.
pub fn render_decimal(n: u64) -> (text: String)
    ensures
        text@ == decimal(n as nat),
{
    let mut text = String::new();
    push_decimal(&mut text, n);
    assert(Seq::<char>::empty() + decimal(n as nat) =~= decimal(n as nat));
    text
}

/// Reads a number in decimal notation: digits only, at least one, and a
/// value that fits 64 bits.
pub fn parse_decimal(text: &str) -> (value: Option<u64>)
    ensures
        value == decimal_u64(text@),
{
    let mut value: u64 = 0;
    let mut seen = false;
    let ghost mut prefix: Seq<char> = Seq::empty();
    for c in it: text.chars()
        invariant
            it.seq() == text@,
            prefix == text@.take(it.index() as int),
            seen == (it.index() > 0),
            it.index() > 0 ==> is_decimal(prefix),
            decimal_value(prefix) == value,
    {
        if !('0' <= c && c <= '9') {
            proof {
                assert(text@[it.index() as int] == c);
                assert(!is_decimal(text@));
            }
            return None;
        }
        let digit: u64 = (c as u8 - 48) as u64;
        proof {
            let next = text@.take(it.index() as int + 1);
            assert(next.drop_last() =~= prefix);
            assert(next.last() == c);
            assert(decimal_value(next) == value * 10 + digit);
            lemma_decimal_value_grows(next, text@);
            assert forall|i: int| 0 <= i < next.len() implies is_digit(#[trigger] next[i]) by {
                if i < prefix.len() {
                    assert(next[i] == prefix[i]);
                }
            }
            prefix = next;
        }
        if value > (u64::MAX - digit) / 10 {
            proof {
                assert(value * 10 + digit > u64::MAX);
            }
            return None;
        }
        value = value * 10 + digit;
        seen = true;
    }
    proof {
        assert(text@.take(text@.len() as int) =~= text@);
    }
    if seen {
        Some(value)
    } else {
        None
    }
}

/// The magnitude of a signed number.
pub open spec fn magnitude(n: int) -> nat {
    if n < 0 {
        (-n) as nat
    } else {
        n as nat
    }
}

/// The decimal notation of a signed number: a minus sign before the
/// magnitude of a negative number, the magnitude alone otherwise.
pub open spec fn signed_decimal(n: int) -> Seq<char> {
    if n < 0 {
        seq!['-'] + decimal(magnitude(n))
    } else {
        decimal(magnitude(n))
    }
}

/// The `i64` that a text denotes in decimal notation, if it denotes one: an
/// optional sign, then digits.
pub open spec fn decimal_i64(text: Seq<char>) -> Option<i64> {
    if text.len() > 0 && text[0] == '-' {
        let digits = text.skip(1);
        if is_decimal(digits) && decimal_value(digits) <= 0x8000_0000_0000_0000 {
            Some((-decimal_value(digits)) as i64)
        } else {
            None
        }
    } else {
        let digits = if text.len() > 0 && text[0] == '+' {
            text.skip(1)
        } else {
            text
        };
        if is_decimal(digits) && decimal_value(digits) <= i64::MAX {
            Some(decimal_value(digits) as i64)
        } else {
            None
        }
    }
}

/// Writes a signed number in decimal notation.
pub fn render_signed(n: i64) -> (text: String)
    ensures
        text@ == signed_decimal(n as int),
{
    if n < 0 {
        let size: u64 = if n == i64::MIN {
            0x8000_0000_0000_0000
        } else {
            (-n) as u64
        };
        let mut text = String::new();
        text.push('-');
        push_decimal(&mut text, size);
        assert(Seq::<char>::empty().push('-') =~= seq!['-']);
        text
    } else {
        render_decimal(n as u64)
    }
}

/// Reads a signed number in decimal notation.
pub fn parse_signed(text: &str) -> (value: Option<i64>)
    ensures
        value == decimal_i64(text@),
{
    let chars = chars_of(text);
    if chars.len() > 0 && chars[0] == '-' {
        let digits = text_of_range(&chars, 1, chars.len());
        assert(chars@.subrange(1, chars@.len() as int) =~= text@.skip(1));
        match parse_decimal(digits.as_str()) {
            Some(size) => {
                if size > 0x8000_0000_0000_0000 {
                    None
                } else if size == 0x8000_0000_0000_0000 {
                    Some(i64::MIN)
                } else {
                    Some(-(size as i64))
                }
            },
            None => None,
        }
    } else {
        let size = if chars.len() > 0 && chars[0] == '+' {
            let digits = text_of_range(&chars, 1, chars.len());
            assert(chars@.subrange(1, chars@.len() as int) =~= text@.skip(1));
            parse_decimal(digits.as_str())
        } else {
            parse_decimal(text)
        };
        match size {
            Some(size) => if size > 0x7fff_ffff_ffff_ffff {
                None
            } else {
                Some(size as i64)
            },
            None => None,
        }
    }
}

/// A run of digits denotes no less than any of its prefixes.
pub proof fn lemma_decimal_value_grows(prefix: Seq<char>, text: Seq<char>)
    requires
        prefix.len() <= text.len(),
        prefix =~= text.take(prefix.len() as int),
    ensures
        decimal_value(prefix) <= decimal_value(text),
    decreases text.len(),
{
    if prefix.len() < text.len() {
        assert(text.drop_last().take(prefix.len() as int) =~= text.take(prefix.len() as int));
        lemma_decimal_value_grows(prefix, text.drop_last());
    } else {
        assert(prefix =~= text);
    }
}

} // verus!
