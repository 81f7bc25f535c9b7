//! Numbers in assembly source: hexadecimal, as the digits `0` to `9` and the
//! letters `a` to `f` in either case, with `+` allowed in front.

use vstd::prelude::*;
use vstd::slice::slice_subrange;

verus! {

/// The character that may stand in front of the digits.
pub const PLUS: char = '+';

/// The value of a hexadecimal digit.
pub open spec fn hex_value(c: char) -> Option<int> {
    if '0' <= c <= '9' {
        Some(c as int - 0x30)
    } else if 'A' <= c <= 'F' {
        Some(c as int - 0x41 + 10)
    } else if 'a' <= c <= 'f' {
        Some(c as int - 0x61 + 10)
    } else {
        None
    }
}

/// Whether every character of `digits` is a hexadecimal digit.
pub open spec fn all_hex(digits: Seq<char>) -> bool {
    forall|i: int| 0 <= i < digits.len() ==> hex_value(#[trigger] digits[i]) is Some
}

/// The number that hexadecimal digits write, the first digit weighing most.
pub open spec fn number(digits: Seq<char>) -> int
    decreases digits.len(),
{
    if digits.len() == 0 {
        0
    } else {
        16 * number(digits.drop_last()) + hex_value(digits.last()).unwrap()
    }
}

/// `text` without a `+` in front.
pub open spec fn unsigned(text: Seq<char>) -> Seq<char> {
    if text.len() > 0 && text[0] == PLUS {
        text.skip(1)
    } else {
        text
    }
}

/// The number below `limit` that `text` writes in hexadecimal: an optional
/// `+`, then one digit or more. Any other text writes none, and so do digits
/// that write `limit` or more.
pub open spec fn parsed_hex(text: Seq<char>, limit: int) -> Option<int> {
    let digits = unsigned(text);
    if digits.len() > 0 && all_hex(digits) && number(digits) < limit {
        Some(number(digits))
    } else {
        None
    }
}

/// The number that a part of the digits writes is no more than the number
/// that all of them write.
proof fn lemma_number_grows(digits: Seq<char>, i: int)
    requires
        all_hex(digits),
        0 <= i <= digits.len(),
    ensures
        0 <= number(digits.take(i)) <= number(digits),
    decreases digits.len() - i,
{
    if i == digits.len() {
        assert(digits.take(i) =~= digits);
        lemma_number_positive(digits);
    } else {
        lemma_number_grows(digits, i + 1);
        let longer = digits.take(i + 1);
        assert(longer.drop_last() =~= digits.take(i));
        assert(longer.last() == digits[i]);
        lemma_number_positive(digits.take(i));
    }
}

/// Digits write no negative number.
proof fn lemma_number_positive(digits: Seq<char>)
    requires
        all_hex(digits),
    ensures
        0 <= number(digits),
    decreases digits.len(),
{
    if digits.len() > 0 {
        lemma_number_positive(digits.drop_last());
    }
}

/// The value of a hexadecimal digit.
pub fn digit_value(c: char) -> (value: Option<u8>)
    ensures
        match value {
            Some(v) => hex_value(c) == Some(v as int) && v < 16,
            None => hex_value(c) is None,
        },
{
    if '0' <= c && c <= '9' {
        Some((c as u32 - 0x30) as u8)
    } else if 'A' <= c && c <= 'F' {
        Some((c as u32 - 0x41 + 10) as u8)
    } else if 'a' <= c && c <= 'f' {
        Some((c as u32 - 0x61 + 10) as u8)
    } else {
        None
    }
}

/// Reads a hexadecimal number below `limit`.
pub fn parse_hex(text: &[char], limit: u32) -> (value: Option<u32>)
    requires
        limit <= 0x10000,
    ensures
        match value {
            Some(v) => parsed_hex(text@, limit as int) == Some(v as int),
            None => parsed_hex(text@, limit as int) is None,
        },
{
    let digits = if text.len() > 0 && text[0] == PLUS {
        slice_subrange(text, 1, text.len())
    } else {
        text
    };
    assert(digits@ == unsigned(text@));
    if digits.len() == 0 {
        return None;
    }
    let mut value: u32 = 0;
    let mut i: usize = 0;
    while i < digits.len()
        invariant
            i <= digits.len(),
            limit <= 0x10000,
            digits@ == unsigned(text@),
            all_hex(digits@.take(i as int)),
            value == number(digits@.take(i as int)),
            value < limit || i == 0,
        decreases digits.len() - i,
    {
        let ghost longer = digits@.take(i + 1);
        assert(longer.drop_last() =~= digits@.take(i as int));
        assert(longer.last() == digits@[i as int]);
        match digit_value(digits[i]) {
            None => {
                assert(!all_hex(digits@));
                return None;
            },
            Some(digit) => {
                if i == 0 {
                    assert(digits@.take(0).len() == 0);
                }
                value = value * 16 + digit as u32;
                assert(all_hex(longer)) by {
                    assert forall|k: int| 0 <= k < longer.len() implies hex_value(
                        #[trigger] longer[k],
                    ) is Some by {
                        if k < i {
                            assert(longer[k] == digits@.take(i as int)[k]);
                        }
                    }
                }
                if value >= limit {
                    proof {
                        if all_hex(digits@) {
                            lemma_number_grows(digits@, i + 1);
                        }
                    }
                    return None;
                }
            },
        }
        i += 1;
    }
    assert(digits@.take(digits.len() as int) =~= digits@);
    Some(value)
}

} // verus!
