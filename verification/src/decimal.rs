//! Reading an unsigned decimal numeral, as a content length is written.

use vstd::prelude::*;
use vstd::string::is_ascii_spec_bytes;

verus! {

/// The value of the decimal digit `c`, or `None` where `c` is no digit.
pub open spec fn digit_value(c: char) -> Option<nat> {
    if '0' <= c && c <= '9' {
        Some((c as u8 - 48) as nat)
    } else {
        None
    }
}

/// The number that the digits of `s` write, most significant first, or
/// `None` where some character of `s` is no decimal digit. No digits write
/// zero.
pub open spec fn digits_value(s: Seq<char>) -> Option<nat>
    decreases s.len(),
{
    if s.len() == 0 {
        Some(0)
    } else {
        match (digits_value(s.drop_last()), digit_value(s.last())) {
            (Some(front), Some(unit)) => Some(front * 10 + unit),
            _ => None,
        }
    }
}

/// The digits of a numeral: the text without one leading plus sign.
pub open spec fn numeral_digits(s: Seq<char>) -> Seq<char> {
    if s.len() > 0 && s[0] == '+' {
        s.drop_first()
    } else {
        s
    }
}

/// The number that the numeral `s` writes: an optional plus sign, then one
/// or more decimal digits and nothing else. `None` for any other text.
pub open spec fn decimal_value(s: Seq<char>) -> Option<nat> {
    if numeral_digits(s).len() == 0 {
        None
    } else {
        digits_value(numeral_digits(s))
    }
}

/// The number that `s` writes where it is a numeral of a number that fits
/// in 64 bits, and `None` otherwise.
pub open spec fn decimal_u64(s: Seq<char>) -> Option<u64> {
    match decimal_value(s) {
        Some(v) => if v <= u64::MAX {
            Some(v as u64)
        } else {
            None
        },
        None => None,
    }
}

/// Digits write a number exactly where each of them is a decimal digit.
pub proof fn lemma_digits_value_some(s: Seq<char>)
    ensures
        digits_value(s) is Some <==> forall|i: int|
            0 <= i < s.len() ==> (#[trigger] digit_value(s[i])) is Some,
    decreases s.len(),
{
    if s.len() > 0 {
        let front = s.drop_last();
        lemma_digits_value_some(front);
        if digits_value(s) is Some {
            assert forall|i: int| 0 <= i < s.len() implies (#[trigger] digit_value(
                s[i],
            )) is Some by {
                if i < front.len() {
                    assert(front[i] == s[i]);
                }
            }
        }
        if forall|i: int| 0 <= i < s.len() ==> (#[trigger] digit_value(s[i])) is Some {
            assert forall|i: int| 0 <= i < front.len() implies (#[trigger] digit_value(
                front[i],
            )) is Some by {
                assert(front[i] == s[i]);
            }
            assert(digit_value(s[s.len() - 1]) is Some);
        }
    }
}

/// The first `k` of some digits write a number that is no larger than the
/// number that all of them write.
pub proof fn lemma_digits_value_prefix(s: Seq<char>, k: int)
    requires
        0 <= k <= s.len(),
        digits_value(s) is Some,
    ensures
        digits_value(s.take(k)) is Some,
        digits_value(s.take(k))->0 <= digits_value(s)->0,
    decreases s.len(),
{
    if k == s.len() {
        assert(s.take(k) =~= s);
    } else {
        let front = s.drop_last();
        lemma_digits_value_prefix(front, k);
        assert(front.take(k) =~= s.take(k));
    }
}

/// Reads `text` as an unsigned decimal numeral: an optional plus sign, then
/// one or more decimal digits. `None` where `text` is anything else, or
/// writes a number that does not fit in 64 bits.
pub fn parse_decimal(text: &str) -> (r: Option<u64>)
    ensures
        r == decimal_u64(text@),
{
    let ghost digits = numeral_digits(text@);
    if !text.is_ascii() {
        proof {
            let i = choose|i: int|
                0 <= i < text@.len() && !('\0' <= #[trigger] text@[i] <= '\u{7f}');
            lemma_digits_value_some(digits);
            if digits.len() == text@.len() {
                assert(digit_value(digits[i]) is None);
            } else {
                assert(i > 0);
                assert(digits[i - 1] == text@[i]);
                assert(digit_value(digits[i - 1]) is None);
            }
        }
        return None;
    }
    let bytes = text.as_bytes();
    proof {
        is_ascii_spec_bytes(text);
    }
    let n = bytes.len();
    let start: usize = if n > 0 && bytes[0] == 43 {
        1
    } else {
        0
    };
    assert(digits =~= text@.subrange(start as int, n as int));
    if start == n {
        return None;
    }
    let mut i: usize = start;
    let mut acc: u64 = 0;
    while i < n
        invariant
            start <= i <= n,
            n == bytes@.len(),
            n == text@.len(),
            digits == numeral_digits(text@),
            digits == text@.subrange(start as int, n as int),
            forall|j: int| 0 <= j < n ==> bytes@[j] == text@[j] as u8,
            forall|j: int| 0 <= j < n ==> '\0' <= #[trigger] text@[j] <= '\u{7f}',
            digits_value(digits.take(i - start)) == Some(acc as nat),
        decreases n - i,
    {
        let b = bytes[i];
        let ghost c = text@[i as int];
        assert(c == digits[i - start]);
        if b < 48 || b > 57 {
            proof {
                assert(digit_value(digits[i - start]) is None);
                lemma_digits_value_some(digits);
            }
            return None;
        }
        let unit: u64 = (b - 48) as u64;
        assert(digit_value(c) == Some(unit as nat));
        let ghost next = digits.take(i - start + 1);
        assert(next.drop_last() =~= digits.take(i - start));
        assert(next.last() == c);
        assert(digits_value(next) == Some((acc * 10 + unit) as nat));
        if acc > (u64::MAX - unit) / 10 {
            proof {
                assert(acc * 10 + unit > u64::MAX);
                if digits_value(digits) is Some {
                    lemma_digits_value_prefix(digits, i - start + 1);
                }
            }
            return None;
        }
        acc = acc * 10 + unit;
        i = i + 1;
    }
    assert(digits.take(i - start) =~= digits);
    Some(acc)
}

} // verus!
