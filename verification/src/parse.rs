//! Parsing the declared resource length.
//!
//! A probe response declares the total resource length as a decimal
//! integer in a header value. The parser accepts exactly the byte strings
//! that consist of one or more ASCII digits and denote a value that fits
//! in `u64`; everything else is rejected, which the caller reports as a
//! missing content size.

use vstd::prelude::*;

verus! {

/// An ASCII decimal digit.
pub open spec fn is_dec_digit(b: u8) -> bool {
    48 <= b <= 57
}

/// Every byte of `s` is an ASCII decimal digit.
pub open spec fn all_dec_digits(s: Seq<u8>) -> bool {
    forall|i: int| 0 <= i < s.len() ==> is_dec_digit(#[trigger] s[i])
}

/// The number denoted by a string of decimal digits, most significant first.
pub open spec fn dec_value(s: Seq<u8>) -> int
    decreases s.len(),
{
    if s.len() == 0 {
        0
    } else {
        dec_value(s.drop_last()) * 10 + s.last() - 48
    }
}

/// The length declaration `s` parses to: its decimal value, provided `s`
/// is non-empty, all digits, and the value fits in `u64`.
pub open spec fn parsed_len(s: Seq<u8>) -> Option<u64> {
    if s.len() >= 1 && all_dec_digits(s) && dec_value(s) <= u64::MAX {
        Some(dec_value(s) as u64)
    } else {
        None
    }
}

/// A string of digits denotes a non-negative number.
proof fn lemma_dec_value_nonneg(s: Seq<u8>)
    requires
        all_dec_digits(s),
    ensures
        dec_value(s) >= 0,
    decreases s.len(),
{
    if s.len() > 0 {
        assert forall|i: int| 0 <= i < s.drop_last().len() implies is_dec_digit(
            #[trigger] s.drop_last()[i],
        ) by {
            assert(s.drop_last()[i] == s[i]);
        }
        lemma_dec_value_nonneg(s.drop_last());
    }
}

/// Appending one digit multiplies the prefix value by ten and adds the digit.
proof fn lemma_dec_value_push(s: Seq<u8>, i: int)
    requires
        0 <= i < s.len(),
    ensures
        dec_value(s.take(i + 1)) == dec_value(s.take(i)) * 10 + s[i] - 48,
{
    assert(s.take(i + 1).drop_last() =~= s.take(i));
    assert(s.take(i + 1).last() == s[i]);
}

/// A digit string's value never shrinks as the string grows.
proof fn lemma_dec_value_prefix_le(s: Seq<u8>, i: int)
    requires
        0 <= i <= s.len(),
        all_dec_digits(s),
    ensures
        dec_value(s.take(i)) <= dec_value(s),
    decreases s.len() - i,
{
    if i < s.len() {
        assert forall|j: int| 0 <= j < s.take(i).len() implies is_dec_digit(
            #[trigger] s.take(i)[j],
        ) by {
            assert(s.take(i)[j] == s[j]);
        }
        lemma_dec_value_nonneg(s.take(i));
        lemma_dec_value_push(s, i);
        lemma_dec_value_prefix_le(s, i + 1);
    } else {
        assert(s.take(i) =~= s);
    }
}

/// Parses a decimal `u64` from `s`, accepting exactly the strings that
/// [`parsed_len`] accepts.
pub fn parse_content_length(s: &[u8]) -> (r: Option<u64>)
    ensures
        r == parsed_len(s@),
{
    if s.len() == 0 {
        return None;
    }
    let mut acc: u64 = 0;
    let mut i: usize = 0;
    while i < s.len()
        invariant
            0 <= i <= s@.len(),
            all_dec_digits(s@.take(i as int)),
            acc == dec_value(s@.take(i as int)),
        decreases s@.len() - i,
    {
        let b: u8 = s[i];
        if b < 48 || b > 57 {
            assert(!is_dec_digit(s@[i as int]));
            return None;
        }
        let d: u64 = (b - 48) as u64;
        proof {
            lemma_dec_value_push(s@, i as int);
            assert forall|j: int| 0 <= j < s@.take(i as int + 1).len() implies is_dec_digit(
                #[trigger] s@.take(i as int + 1)[j],
            ) by {
                assert(s@.take(i as int + 1)[j] == s@[j]);
            }
        }
        if acc > (u64::MAX - d) / 10 {
            proof {
                vstd::arithmetic::div_mod::lemma_fundamental_div_mod((u64::MAX - d) as int, 10);
                assert(acc * 10 + d > u64::MAX) by (nonlinear_arith)
                    requires
                        acc > ((u64::MAX - d) as int) / 10,
                        0 <= d <= 9,
                        (u64::MAX - d) as int == 10 * (((u64::MAX - d) as int) / 10) + ((u64::MAX
                            - d) as int) % 10,
                        0 <= ((u64::MAX - d) as int) % 10 < 10,
                ;
                if all_dec_digits(s@) {
                    lemma_dec_value_prefix_le(s@, i as int + 1);
                }
            }
            return None;
        }
        proof {
            vstd::arithmetic::div_mod::lemma_fundamental_div_mod((u64::MAX - d) as int, 10);
            assert(acc * 10 + d <= u64::MAX) by (nonlinear_arith)
                requires
                    acc <= ((u64::MAX - d) as int) / 10,
                    0 <= d <= 9,
                    (u64::MAX - d) as int == 10 * (((u64::MAX - d) as int) / 10) + ((u64::MAX
                        - d) as int) % 10,
                    0 <= ((u64::MAX - d) as int) % 10 < 10,
            ;
        }
        acc = acc * 10 + d;
        i = i + 1;
    }
    proof {
        assert(s@.take(i as int) =~= s@);
    }
    Some(acc)
}

} // verus!
