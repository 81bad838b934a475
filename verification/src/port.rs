//! Port numbers written as decimal text.

use vstd::prelude::*;
use vstd::std_specs::iter::IteratorSpec;

verus! {

/// Whether `c` is one of the ten decimal digits.
pub open spec fn is_digit(c: char) -> bool {
    '0' <= c <= '9'
}

/// The number that the digit `c` stands for.
pub open spec fn digit_value(c: char) -> nat
    recommends
        is_digit(c),
{
    (c as nat - '0' as nat) as nat
}

/// Whether `text` holds decimal digits only.
pub open spec fn all_digits(text: Seq<char>) -> bool {
    forall|i: int| 0 <= i < text.len() ==> is_digit(#[trigger] text[i])
}

/// The number that a sequence of decimal digits stands for.
pub open spec fn decimal(digits: Seq<char>) -> nat
    decreases digits.len(),
{
    if digits.len() == 0 {
        0
    } else {
        decimal(digits.drop_last()) * 10 + digit_value(digits.last())
    }
}

/// `text` without a plus sign in front.
pub open spec fn unsigned_part(text: Seq<char>) -> Seq<char> {
    if text.len() > 0 && text[0] == '+' {
        text.skip(1)
    } else {
        text
    }
}

/// The port that `text` names: an optional plus sign, then one or more
/// decimal digits whose number is at most 65535. Any other text names none.
pub open spec fn port_of(text: Seq<char>) -> Option<u16> {
    let digits = unsigned_part(text);
    if digits.len() > 0 && all_digits(digits) && decimal(digits) <= u16::MAX {
        Some(decimal(digits) as u16)
    } else {
        None
    }
}

/// A sequence of digits stands for at least as much as any of its prefixes.
pub proof fn lemma_decimal_grows(digits: Seq<char>, n: int)
    requires
        0 <= n <= digits.len(),
    ensures
        decimal(digits.take(n)) <= decimal(digits),
    decreases digits.len(),
{
    if n == digits.len() {
        assert(digits.take(n) =~= digits);
    } else {
        lemma_decimal_grows(digits.drop_last(), n);
        assert(digits.drop_last().take(n) =~= digits.take(n));
    }
}

/// Reads a port from its decimal text, in one pass over it.
pub fn parse_port(text: &str) -> (port: Option<u16>)
    ensures
        port == port_of(text@),
{
    let mut rest = text.chars();
    let mut first = rest.next();
    let ghost mut start: int = 0;
    if first == Some('+') {
        first = rest.next();
        proof {
            start = 1;
        }
    }
    let ghost digits = unsigned_part(text@);
    assert(digits =~= text@.skip(start));
    let mut current: char = match first {
        Some(c) => c,
        None => {
            return None;
        },
    };
    let mut value: u32 = 0;
    let ghost mut seen: int = 0;
    loop
        invariant
            rest.obeys_prophetic_iter_laws(),
            digits == unsigned_part(text@),
            0 <= seen < digits.len(),
            current == digits[seen],
            rest.remaining() == digits.skip(seen + 1),
            all_digits(digits.take(seen)),
            value == decimal(digits.take(seen)),
            value <= u16::MAX,
        decreases digits.len() - seen,
    {
        let ghost next = digits.take(seen + 1);
        assert(next.drop_last() =~= digits.take(seen));
        assert(next.last() == current);
        if !(current >= '0' && current <= '9') {
            assert(!is_digit(digits[seen]));
            return None;
        }
        let d: u32 = current as u32 - '0' as u32;
        value = value * 10 + d;
        assert(value == decimal(next));
        if value > 65535 {
            proof {
                lemma_decimal_grows(digits, seen + 1);
            }
            return None;
        }
        assert(all_digits(next)) by {
            assert forall|j: int| 0 <= j < next.len() implies is_digit(#[trigger] next[j]) by {
                if j < seen {
                    assert(next[j] == digits.take(seen)[j]);
                }
            }
        }
        proof {
            seen = seen + 1;
        }
        match rest.next() {
            Some(c) => {
                assert(digits.skip(seen).drop_first() =~= digits.skip(seen + 1));
                current = c;
            },
            None => {
                assert(digits.take(seen) =~= digits);
                return Some(value as u16);
            },
        }
    }
}

} // verus!
