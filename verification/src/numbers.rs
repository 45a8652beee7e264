//! Parsing of decimal integers out of caller-supplied strings.
//!
//! The gateway receives numbers (a phone number, for one) as JSON strings and
//! must turn them into signed 64-bit integers before forwarding them to a
//! backend. [`parse_i64`] accepts exactly the strings of the form
//! `['+'|'-'] digit+` whose value fits in an `i64`, and rejects everything
//! else.

use vstd::prelude::*;
use vstd::string::StrSliceExecFns;

verus! {

/// Is `c` one of the ten decimal digits? (code points 48 through 57)
pub open spec fn is_dec_digit(c: char) -> bool {
    48 <= c as int && c as int <= 57
}

/// The numeric value of a decimal digit.
pub open spec fn digit_value(c: char) -> int {
    c as int - 48
}

/// Does `s` consist of decimal digits only?
pub open spec fn all_dec_digits(s: Seq<char>) -> bool {
    forall|i: int| 0 <= i < s.len() ==> is_dec_digit(#[trigger] s[i])
}

/// The value of a digit string read in base ten.
pub open spec fn digits_value(s: Seq<char>) -> int
    decreases s.len(),
{
    if s.len() == 0 {
        0
    } else {
        digits_value(s.drop_last()) * 10 + digit_value(s.last())
    }
}

/// What parsing a decimal `i64` out of `s` yields: an optional sign, then at
/// least one digit, nothing else, and a value within the `i64` range.
pub open spec fn spec_parse_i64(s: Seq<char>) -> Option<i64> {
    let neg = s.len() > 0 && s[0] == '-';
    let mag = if s.len() > 0 && (s[0] == '-' || s[0] == '+') {
        s.skip(1)
    } else {
        s
    };
    if mag.len() == 0 || !all_dec_digits(mag) {
        None
    } else {
        let v = if neg {
            -digits_value(mag)
        } else {
            digits_value(mag)
        };
        if i64::MIN <= v <= i64::MAX {
            Some(v as i64)
        } else {
            None
        }
    }
}

/// The digit part of `s` as [`spec_parse_i64`] reads it: everything after an
/// optional leading sign.
pub open spec fn spec_parse_i64_magnitude(s: Seq<char>) -> Seq<char> {
    if s.len() > 0 && (s[0] == '-' || s[0] == '+') {
        s.skip(1)
    } else {
        s
    }
}

/// A digit string has a non-negative value.
proof fn lemma_digits_value_nonneg(s: Seq<char>)
    requires
        all_dec_digits(s),
    ensures
        digits_value(s) >= 0,
    decreases s.len(),
{
    if s.len() > 0 {
        assert(all_dec_digits(s.drop_last())) by {
            assert(forall|i: int|
                0 <= i < s.len() - 1 ==> s.drop_last()[i] == #[trigger] s[i]);
        }
        lemma_digits_value_nonneg(s.drop_last());
    }
}

/// Reading one more digit multiplies the value by ten and adds the digit.
proof fn lemma_digits_value_take_succ(s: Seq<char>, i: int)
    requires
        0 <= i < s.len(),
    ensures
        digits_value(s.take(i + 1)) == digits_value(s.take(i)) * 10 + digit_value(s[i]),
{
    assert(s.take(i + 1).drop_last() =~= s.take(i));
    assert(s.take(i + 1).last() == s[i]);
}

/// Extending a digit string never decreases its value.
proof fn lemma_digits_value_monotone(s: Seq<char>, i: int, j: int)
    requires
        all_dec_digits(s),
        0 <= i <= j <= s.len(),
    ensures
        digits_value(s.take(i)) <= digits_value(s.take(j)),
    decreases j - i,
{
    if i < j {
        lemma_digits_value_monotone(s, i, j - 1);
        lemma_digits_value_take_succ(s, j - 1);
        assert(all_dec_digits(s.take(j - 1))) by {
            assert(forall|k: int|
                0 <= k < j - 1 ==> s.take(j - 1)[k] == #[trigger] s[k]);
        }
        lemma_digits_value_nonneg(s.take(j - 1));
        assert(digits_value(s.take(j - 1)) * 10 >= digits_value(s.take(j - 1)));
    }
}

/// Parses `s` as a decimal `i64`: an optional `+` or `-` sign, then one or
/// more digits, and a value that fits; anything else yields `None`.
pub fn parse_i64(s: &str) -> (r: Option<i64>)
    ensures
        r == spec_parse_i64(s@),
{
    let n = s.unicode_len();
    if n == 0 {
        return None;
    }
    let first = s.get_char(0);
    let neg = first == '-';
    let has_sign = neg || first == '+';
    let start: usize = if has_sign {
        1
    } else {
        0
    };
    if start == n {
        // a bare sign has no digits
        return None;
    }
    let ghost mag: Seq<char> = s@.subrange(start as int, n as int);
    proof {
        if has_sign {
            assert(mag =~= s@.skip(1));
        } else {
            assert(mag =~= s@);
        }
    }
    let mut acc: u64 = 0;
    let mut i: usize = start;
    while i < n
        invariant
            start <= i <= n,
            n == s@.len(),
            start == if has_sign { 1int } else { 0int },
            has_sign == (s@[0] == '-' || s@[0] == '+'),
            neg == (s@[0] == '-'),
            mag == s@.subrange(start as int, n as int),
            mag == spec_parse_i64_magnitude(s@),
            all_dec_digits(mag.take(i - start as int)),
            acc == digits_value(mag.take(i - start as int)),
        decreases n - i,
    {
        let ghost j = i - start as int;
        let c = s.get_char(i);
        let code = c as u32;
        proof {
            assert(mag[j] == s@[i as int]);
        }
        if code < 48 || code > 57 {
            proof {
                assert(!is_dec_digit(mag[j]));
            }
            return None;
        }
        let d = (code - 48) as u64;
        proof {
            assert(is_dec_digit(mag[j]));
            assert(d == digit_value(mag[j]));
            lemma_digits_value_take_succ(mag, j);
        }
        let widened = match acc.checked_mul(10) {
            Some(x) => x.checked_add(d),
            None => None,
        };
        match widened {
            Some(next) => {
                proof {
                    assert(digits_value(mag.take(j + 1)) == acc * 10 + d);
                    assert(all_dec_digits(mag.take(j + 1))) by {
                        assert(forall|k: int|
                            0 <= k < j + 1 ==> mag.take(j + 1)[k] == #[trigger] mag.take(
                                j + 1,
                            )[k]);
                        assert(forall|k: int|
                            0 <= k < j ==> mag.take(j + 1)[k] == #[trigger] mag.take(j)[k]);
                    }
                }
                acc = next;
            },
            None => {
                // the magnitude no longer fits in a u64, so it cannot fit in
                // an i64 either, whatever digits follow
                proof {
                    assert(digits_value(mag.take(j + 1)) > u64::MAX);
                    if all_dec_digits(mag) {
                        lemma_digits_value_monotone(mag, j + 1, mag.len() as int);
                        assert(mag.take(mag.len() as int) =~= mag);
                        assert(digits_value(mag) > u64::MAX);
                    }
                }
                return None;
            },
        }
        i += 1;
    }
    proof {
        assert(mag.take(n - start as int) =~= mag);
        assert(acc == digits_value(mag));
        assert(all_dec_digits(mag));
    }
    if neg {
        if acc <= 9223372036854775807u64 {
            Some(-(acc as i64))
        } else if acc == 9223372036854775808u64 {
            Some(i64::MIN)
        } else {
            None
        }
    } else {
        if acc <= 9223372036854775807u64 {
            Some(acc as i64)
        } else {
            None
        }
    }
}


} // verus!

