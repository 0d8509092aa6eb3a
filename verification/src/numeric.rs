//! Decimal parsing of subject identifiers.
//!
//! A token's subject claim is a string; it names a user only if it is a
//! decimal integer that fits in `i32`. The parser below follows the usual
//! integer grammar: an optional sign, then one or more ASCII digits, and
//! rejects anything else or any value out of range.

use vstd::prelude::*;

verus! {

/// One more than `i32::MAX`; the magnitude of `i32::MIN`.
pub const I32_MAGNITUDE_BOUND: u64 = 2147483648;

pub open spec fn is_decimal_digit(c: char) -> bool {
    48 <= c as int && c as int <= 57
}

pub open spec fn digit_value(c: char) -> int {
    c as int - 48
}

pub open spec fn all_decimal_digits(s: Seq<char>) -> bool {
    forall|i: int| 0 <= i < s.len() ==> is_decimal_digit(#[trigger] s[i])
}

/// The value of a digit string, most significant digit first.
pub open spec fn decimal_value(s: Seq<char>) -> int
    decreases s.len(),
{
    if s.len() == 0 {
        0
    } else {
        decimal_value(s.drop_last()) * 10 + digit_value(s.last())
    }
}

/// What parsing a decimal `i32` out of `s` yields: `None` on an empty or
/// malformed string and on overflow, otherwise the signed value.
pub open spec fn parse_i32_spec(s: Seq<char>) -> Option<i32> {
    let negative = s.len() > 0 && s[0] == '-';
    let digits = if s.len() > 0 && (s[0] == '+' || s[0] == '-') {
        s.drop_first()
    } else {
        s
    };
    if digits.len() == 0 || !all_decimal_digits(digits) {
        None
    } else {
        let v = if negative {
            -decimal_value(digits)
        } else {
            decimal_value(digits)
        };
        if i32::MIN <= v <= i32::MAX {
            Some(v as i32)
        } else {
            None
        }
    }
}

proof fn lemma_decimal_value_nonneg(s: Seq<char>)
    requires
        all_decimal_digits(s),
    ensures
        decimal_value(s) >= 0,
    decreases s.len(),
{
    if s.len() > 0 {
        assert(all_decimal_digits(s.drop_last()));
        lemma_decimal_value_nonneg(s.drop_last());
    }
}

proof fn lemma_decimal_value_push(s: Seq<char>, c: char)
    ensures
        decimal_value(s.push(c)) == decimal_value(s) * 10 + digit_value(c),
{
    assert(s.push(c).drop_last() =~= s);
    assert(s.push(c).last() == c);
}

/// Parse a decimal `i32`, accepting exactly an optional sign followed by
/// one or more ASCII digits, with the value in range.
pub fn parse_i32(s: &str) -> (r: Option<i32>)
    ensures
        r == parse_i32_spec(s@),
{
    let n = s.unicode_len();
    let mut start: usize = 0;
    let mut negative = false;
    if n > 0 {
        let c0 = s.get_char(0);
        if c0 == '+' {
            start = 1;
        } else if c0 == '-' {
            start = 1;
            negative = true;
        }
    }
    let ghost digits: Seq<char> = if start == 1 {
        s@.drop_first()
    } else {
        s@
    };
    if start >= n {
        // Empty input, or a sign with no digits after it.
        assert(digits.len() == 0);
        return None;
    }
    let mut acc: u64 = 0;
    let mut i: usize = start;
    while i < n
        invariant
            start <= i <= n,
            n == s@.len(),
            start == 0 || start == 1,
            start == 1 ==> s@.len() > 0 && (s@[0] == '+' || s@[0] == '-'),
            start == 0 ==> !(s@.len() > 0 && (s@[0] == '+' || s@[0] == '-')),
            negative <==> (s@.len() > 0 && s@[0] == '-'),
            digits == (if start == 1 {
                s@.drop_first()
            } else {
                s@
            }),
            all_decimal_digits(digits.subrange(0, i - start)),
            acc <= I32_MAGNITUDE_BOUND + 1,
            decimal_value(digits.subrange(0, i - start)) <= I32_MAGNITUDE_BOUND as int ==> acc
                == decimal_value(digits.subrange(0, i - start)),
            decimal_value(digits.subrange(0, i - start)) > I32_MAGNITUDE_BOUND as int ==> acc
                == I32_MAGNITUDE_BOUND + 1,
        decreases n - i,
    {
        let c = s.get_char(i);
        let cv = c as u32;
        if cv < 48 || cv > 57 {
            // Not a digit: the whole string is malformed.
            assert(digits[i - start] == s@[i as int]);
            assert(!is_decimal_digit(digits[i - start]));
            return None;
        }
        let d: u64 = (cv - 48) as u64;
        let ghost prefix = digits.subrange(0, i - start);
        proof {
            lemma_decimal_value_nonneg(prefix);
            lemma_decimal_value_push(prefix, s@[i as int]);
            assert(digits.subrange(0, i + 1 - start) =~= prefix.push(s@[i as int]));
        }
        if acc <= I32_MAGNITUDE_BOUND {
            acc = acc * 10 + d;
            if acc > I32_MAGNITUDE_BOUND {
                acc = I32_MAGNITUDE_BOUND + 1;
            }
        }
        i = i + 1;
    }
    proof {
        assert(digits.subrange(0, n - start) =~= digits);
        lemma_decimal_value_nonneg(digits);
    }
    if negative {
        if acc <= I32_MAGNITUDE_BOUND {
            Some((-(acc as i64)) as i32)
        } else {
            None
        }
    } else {
        if acc < I32_MAGNITUDE_BOUND {
            Some(acc as i32)
        } else {
            None
        }
    }
}

} // verus!
