//! The pieces that an address string is taken apart with: the last `:` and
//! the decimal port behind it.

use vstd::prelude::*;

verus! {

/// The byte `:`.
pub const COLON: u8 = 58;

/// The byte `+`.
pub const PLUS: u8 = 43;

/// The byte `0`.
pub const DIGIT_0: u8 = 48;

/// The byte `9`.
pub const DIGIT_9: u8 = 57;

/// Whether every byte of `s` is a decimal digit.
pub open spec fn all_digits(s: Seq<u8>) -> bool {
    forall|i: int| 0 <= i < s.len() ==> DIGIT_0 <= #[trigger] s[i] <= DIGIT_9
}

/// The number that a run of decimal digits writes.
pub open spec fn decimal_value(digits: Seq<u8>) -> nat
    decreases digits.len(),
{
    if digits.len() == 0 {
        0
    } else {
        (decimal_value(digits.drop_last()) * 10 + (digits.last() - DIGIT_0)) as nat
    }
}

/// The port that `text` writes: an optional `+`, then at least one decimal
/// digit, the whole no larger than 65535. Leading zeros are allowed.
pub open spec fn port_literal(text: Seq<u8>) -> Option<u16> {
    let digits = if text.len() > 0 && text[0] == PLUS {
        text.subrange(1, text.len() as int)
    } else {
        text
    };
    if digits.len() > 0 && all_digits(digits) && decimal_value(digits) <= u16::MAX {
        Some(decimal_value(digits) as u16)
    } else {
        None
    }
}

/// The index of the last occurrence of `b` in `s`, or -1 where there is none.
pub open spec fn last_index_of(s: Seq<u8>, b: u8) -> int
    decreases s.len(),
{
    if s.len() == 0 {
        -1
    } else if s.last() == b {
        s.len() - 1
    } else {
        last_index_of(s.drop_last(), b)
    }
}

/// `last_index_of` is the largest index that holds `b`.
pub proof fn lemma_last_index_of(s: Seq<u8>, b: u8)
    ensures
        -1 <= last_index_of(s, b) < s.len(),
        last_index_of(s, b) >= 0 ==> s[last_index_of(s, b)] == b,
        forall|j: int| last_index_of(s, b) < j < s.len() ==> s[j] != b,
    decreases s.len(),
{
    if s.len() > 0 && s.last() != b {
        let front = s.drop_last();
        lemma_last_index_of(front, b);
        assert forall|j: int| last_index_of(s, b) < j < s.len() implies s[j] != b by {
            if j < front.len() {
                assert(front[j] == s[j]);
            }
        }
    }
}

/// An index that holds `b` and has no `b` behind it is the last one.
pub proof fn lemma_last_index_of_unique(s: Seq<u8>, b: u8, i: int)
    requires
        0 <= i < s.len(),
        s[i] == b,
        forall|j: int| i < j < s.len() ==> s[j] != b,
    ensures
        last_index_of(s, b) == i,
{
    lemma_last_index_of(s, b);
}

/// Where no byte is `b`, there is no last one.
pub proof fn lemma_last_index_of_absent(s: Seq<u8>, b: u8)
    requires
        forall|j: int| 0 <= j < s.len() ==> s[j] != b,
    ensures
        last_index_of(s, b) == -1,
{
    lemma_last_index_of(s, b);
}

/// A run of digits writes at least what any prefix of it writes.
proof fn lemma_decimal_value_prefix(digits: Seq<u8>, k: int)
    requires
        all_digits(digits),
        0 <= k <= digits.len(),
    ensures
        decimal_value(digits.subrange(0, k)) <= decimal_value(digits),
    decreases digits.len(),
{
    if k == digits.len() {
        assert(digits.subrange(0, k) =~= digits);
    } else {
        let front = digits.drop_last();
        assert(front.subrange(0, k) =~= digits.subrange(0, k));
        lemma_decimal_value_prefix(front, k);
    }
}

/// Finds the last occurrence of `b` in `bytes`.
pub fn rfind_byte(bytes: &[u8], b: u8) -> (found: Option<usize>)
    ensures
        match found {
            Some(i) => i == last_index_of(bytes@, b) && i < bytes@.len() && bytes@[i as int] == b,
            None => last_index_of(bytes@, b) == -1,
        },
{
    let mut i: usize = bytes.len();
    while i > 0
        invariant
            i <= bytes@.len(),
            forall|j: int| i <= j < bytes@.len() ==> bytes@[j] != b,
        decreases i,
    {
        i -= 1;
        if bytes[i] == b {
            proof {
                lemma_last_index_of_unique(bytes@, b, i as int);
            }
            return Some(i);
        }
    }
    proof {
        lemma_last_index_of_absent(bytes@, b);
    }
    None
}

/// Reads a port number as the decimal text of a 16-bit unsigned integer.
pub fn parse_port(text: &[u8]) -> (port: Option<u16>)
    ensures
        port == port_literal(text@),
{
    let n = text.len();
    let start: usize = if n > 0 && text[0] == PLUS {
        1
    } else {
        0
    };
    if start == n {
        return None;
    }
    let ghost digits = text@.subrange(start as int, n as int);
    assert(start == 0 ==> digits =~= text@);
    let mut value: u32 = 0;
    let mut i: usize = start;
    while i < n
        invariant
            start <= i <= n,
            n == text@.len(),
            digits.len() == n - start,
            forall|j: int| 0 <= j < n - start ==> digits[j] == text@[start + j],
            port_literal(text@) == if all_digits(digits) && decimal_value(digits) <= u16::MAX {
                Some(decimal_value(digits) as u16)
            } else {
                None
            },
            all_digits(digits.subrange(0, i - start)),
            value == decimal_value(digits.subrange(0, i - start)),
            value <= u16::MAX,
        decreases n - i,
    {
        let b = text[i];
        if b < DIGIT_0 || b > DIGIT_9 {
            assert(digits[i - start] == b);
            return None;
        }
        let ghost seen = digits.subrange(0, i - start + 1);
        assert(seen.drop_last() =~= digits.subrange(0, i - start));
        assert(seen.last() == b);
        value = value * 10 + (b - DIGIT_0) as u32;
        assert(value == decimal_value(seen));
        if value > 65535 {
            proof {
                if all_digits(digits) {
                    lemma_decimal_value_prefix(digits, i - start + 1);
                }
            }
            return None;
        }
        i += 1;
    }
    assert(digits.subrange(0, i - start) =~= digits);
    Some(value as u16)
}

} // verus!
