//! Reading a signed decimal number from text.

use vstd::prelude::*;
use vstd::string::*;

verus! {

/// ASCII code of the plus sign.
const PLUS: u8 = 43;

/// ASCII code of the minus sign.
const MINUS: u8 = 45;

/// ASCII code of the digit zero.
const ZERO: u8 = 48;

/// ASCII code of the digit nine.
const NINE: u8 = 57;

/// `c` is one of the ten ASCII digits.
pub open spec fn is_decimal_digit(c: char) -> bool {
    '0' <= c && c <= '9'
}

/// The number a digit stands for.
pub open spec fn digit_value(c: char) -> int {
    c as u32 as int - '0' as u32 as int
}

/// Every character of `s` is an ASCII digit.
pub open spec fn all_decimal_digits(s: Seq<char>) -> bool {
    forall|i: int| 0 <= i < s.len() ==> is_decimal_digit(#[trigger] s[i])
}

/// The number that a run of digits denotes in base ten.
pub open spec fn digits_value(s: Seq<char>) -> int
    decreases s.len(),
{
    if s.len() == 0 {
        0
    } else {
        10 * digits_value(s.drop_last()) + digit_value(s.last())
    }
}

/// `s` opens with a plus or minus sign.
pub open spec fn has_sign(s: Seq<char>) -> bool {
    s.len() > 0 && (s[0] == '+' || s[0] == '-')
}

/// What is left of `s` after its sign, if it has one.
pub open spec fn unsigned_part(s: Seq<char>) -> Seq<char> {
    if has_sign(s) {
        s.subrange(1, s.len() as int)
    } else {
        s
    }
}

/// The integer that `s` denotes: an optional sign followed by digits.
pub open spec fn signed_value(s: Seq<char>) -> int {
    if s.len() > 0 && s[0] == '-' {
        -digits_value(unsigned_part(s))
    } else {
        digits_value(unsigned_part(s))
    }
}

/// The `i32` written in `s`, if `s` is an optional sign followed by at
/// least one digit and nothing else, and the number fits.
pub open spec fn decimal_i32(s: Seq<char>) -> Option<i32> {
    if unsigned_part(s).len() > 0 && all_decimal_digits(unsigned_part(s)) && i32::MIN
        <= signed_value(s) <= i32::MAX {
        Some(signed_value(s) as i32)
    } else {
        None
    }
}

/// A run of digits denotes a number that is not negative.
pub proof fn lemma_digits_value_nonnegative(s: Seq<char>)
    requires
        all_decimal_digits(s),
    ensures
        0 <= digits_value(s),
    decreases s.len(),
{
    if s.len() > 0 {
        assert(is_decimal_digit(s.last()));
        assert forall|i: int| 0 <= i < s.drop_last().len() implies is_decimal_digit(
            #[trigger] s.drop_last()[i],
        ) by {
            assert(s.drop_last()[i] == s[i]);
        }
        lemma_digits_value_nonnegative(s.drop_last());
    }
}

/// Reads an `i32` written in base ten: an optional `+` or `-`, then one or
/// more ASCII digits, and nothing before, between or after them. Text of
/// any other shape, or a number outside the range of `i32`, gives `None`.
pub fn parse_i32(text: &str) -> (r: Option<i32>)
    ensures
        r == decimal_i32(text@),
{
    let ghost s = text@;
    let ghost digits = unsigned_part(s);
    if !text.is_ascii() {
        proof {
            // A character outside ASCII is neither a sign nor a digit.
            let bad = choose|i: int| 0 <= i < s.len() && !('\0' <= #[trigger] s[i] <= '\u{7f}');
            if has_sign(s) {
                assert(digits[bad - 1] == s[bad]);
            }
            assert(!all_decimal_digits(digits));
        }
        return None;
    }
    let bytes = text.as_bytes();
    proof {
        is_ascii_spec_bytes(text);
    }
    let n: usize = bytes.len();
    if n == 0 {
        return None;
    }
    let first: u8 = bytes[0];
    let negative: bool = first == MINUS;
    let start: usize = if first == MINUS || first == PLUS {
        1
    } else {
        0
    };
    assert(digits =~= s.subrange(start as int, n as int));
    if start == n {
        return None;
    }
    // The magnitude is followed up to 2^31, the largest that a negative
    // number may have; beyond it only the overflow is remembered.
    let limit: i64 = 0x8000_0000;
    let mut magnitude: i64 = 0;
    let mut overflow: bool = false;
    let mut i: usize = start;
    while i < n
        invariant
            start <= i <= n,
            n == s.len(),
            s == text@,
            digits == unsigned_part(s),
            digits =~= s.subrange(start as int, n as int),
            bytes@.len() == s.len(),
            vstd::utf8::is_ascii_chars(s),
            forall|k: int| 0 <= k < s.len() ==> bytes@[k] == #[trigger] s[k] as u8,
            limit == 0x8000_0000,
            all_decimal_digits(s.subrange(start as int, i as int)),
            0 <= magnitude <= limit,
            !overflow ==> magnitude == digits_value(s.subrange(start as int, i as int)),
            overflow ==> digits_value(s.subrange(start as int, i as int)) > limit,
        decreases n - i,
    {
        let b: u8 = bytes[i];
        let ghost before = s.subrange(start as int, i as int);
        let ghost after = s.subrange(start as int, i + 1);
        assert(after.drop_last() =~= before);
        assert(after.last() == s[i as int]);
        if b < ZERO || b > NINE {
            assert(!is_decimal_digit(digits[i - start]));
            return None;
        }
        assert(all_decimal_digits(after)) by {
            assert forall|k: int| 0 <= k < after.len() implies is_decimal_digit(
                #[trigger] after[k],
            ) by {
                if k < before.len() {
                    assert(after[k] == before[k]);
                }
            }
        }
        proof {
            lemma_digits_value_nonnegative(before);
        }
        if !overflow {
            let next: i64 = magnitude * 10 + (b - ZERO) as i64;
            if next > limit {
                overflow = true;
            } else {
                magnitude = next;
            }
        }
        i = i + 1;
    }
    assert(s.subrange(start as int, n as int) =~= digits);
    if overflow {
        None
    } else if negative {
        let value: i64 = -magnitude;
        Some(value as i32)
    } else if magnitude == limit {
        None
    } else {
        Some(magnitude as i32)
    }
}

} // verus!
