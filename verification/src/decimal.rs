//! Decimal integer literals, read from the bytes of a lexeme.

use vstd::prelude::*;

verus! {

/// Whether `byte` is one of the ASCII digits `0` to `9`.
pub open spec fn is_digit(byte: u8) -> bool {
    0x30 <= byte <= 0x39
}

/// Whether every byte of `bytes` is an ASCII digit.
pub open spec fn all_digits(bytes: Seq<u8>) -> bool {
    forall|i: int| 0 <= i < bytes.len() ==> is_digit(#[trigger] bytes[i])
}

/// The number that the digits `digits` write in base ten, the most
/// significant first.
pub open spec fn digits_value(digits: Seq<u8>) -> nat
    decreases digits.len(),
{
    if digits.len() == 0 {
        0
    } else {
        digits_value(digits.drop_last()) * 10 + (digits.last() - 0x30) as nat
    }
}

/// The digits of a literal: what follows its sign, where it has one.
pub open spec fn digits_of(bytes: Seq<u8>) -> Seq<u8> {
    if bytes.len() > 0 && bytes[0] == 0x2b {
        bytes.subrange(1, bytes.len() as int)
    } else {
        bytes
    }
}

/// Whether `bytes` is a decimal literal: an optional `+`, then one digit
/// or more, and nothing else.
pub open spec fn is_decimal(bytes: Seq<u8>) -> bool {
    digits_of(bytes).len() > 0 && all_digits(digits_of(bytes))
}

/// The number that `bytes` writes, where it is a decimal literal that fits
/// in 32 bits.
pub open spec fn decimal_u32(bytes: Seq<u8>) -> Option<u32> {
    if is_decimal(bytes) && digits_value(digits_of(bytes)) <= u32::MAX {
        Some(digits_value(digits_of(bytes)) as u32)
    } else {
        None
    }
}

/// The first digits of a number write no more than all of them.
pub proof fn lemma_digits_value_grows(digits: Seq<u8>, k: int)
    requires
        all_digits(digits),
        0 <= k <= digits.len(),
    ensures
        digits_value(digits.subrange(0, k)) <= digits_value(digits),
    decreases digits.len() - k,
{
    if k == digits.len() {
        assert(digits.subrange(0, k) =~= digits);
    } else {
        let longer = digits.subrange(0, k + 1);
        assert(longer.drop_last() =~= digits.subrange(0, k));
        assert(is_digit(digits[k]));
        assert(longer.last() == digits[k]);
        lemma_digits_value_grows(digits, k + 1);
    }
}

/// Reads `bytes` as a decimal literal of 32 bits: an optional `+`, then
/// digits. Anything else, and a number that does not fit, gives nothing.
pub fn parse_decimal(bytes: &[u8]) -> (value: Option<u32>)
    ensures
        value == decimal_u32(bytes@),
{
    let n = bytes.len();
    let first: usize = if n > 0 && bytes[0] == 0x2b {
        1
    } else {
        0
    };
    let ghost digits = digits_of(bytes@);
    assert(digits =~= bytes@.subrange(first as int, n as int));
    if first == n {
        return None;
    }
    let mut acc: u64 = 0;
    let mut i: usize = first;
    while i < n
        invariant
            first <= i <= n,
            n == bytes@.len(),
            digits == bytes@.subrange(first as int, n as int),
            digits == digits_of(bytes@),
            all_digits(digits.subrange(0, i - first)),
            acc == digits_value(digits.subrange(0, i - first)),
            acc <= u32::MAX,
        decreases n - i,
    {
        let byte = bytes[i];
        let ghost seen = digits.subrange(0, i - first);
        let ghost next = digits.subrange(0, i - first + 1);
        assert(next.drop_last() =~= seen);
        assert(next.last() == byte);
        if byte < 0x30 || byte > 0x39 {
            assert(!is_digit(digits[i - first]));
            return None;
        }
        assert forall|j: int| 0 <= j < next.len() implies is_digit(#[trigger] next[j]) by {
            if j < seen.len() {
                assert(next[j] == seen[j]);
            }
        }
        let wider: u64 = acc * 10 + (byte - 0x30) as u64;
        assert(wider == digits_value(next));
        if wider > 0xffff_ffff {
            proof {
                if all_digits(digits) {
                    lemma_digits_value_grows(digits, i - first + 1);
                }
            }
            return None;
        }
        acc = wider;
        i = i + 1;
    }
    assert(digits.subrange(0, n - first) =~= digits);
    Some(acc as u32)
}

} // verus!
