//! Parsing of the numeric configuration values: channel identifiers and
//! the age threshold are decimal strings that must fit in a `u64`.

use vstd::prelude::*;

verus! {

/// ASCII decimal digit.
pub open spec fn is_digit(b: u8) -> bool {
    48 <= b <= 57
}

/// Every byte of `s` is an ASCII decimal digit.
pub open spec fn all_digits(s: Seq<u8>) -> bool {
    forall|i: int| 0 <= i < s.len() ==> is_digit(s[i])
}

/// The number a digit string denotes, most significant digit first.
pub open spec fn digits_value(s: Seq<u8>) -> nat
    decreases s.len(),
{
    if s.len() == 0 {
        0
    } else {
        (digits_value(s.drop_last()) * 10 + (s.last() - 48)) as nat
    }
}

/// A digit string's value is at least the value of any of its prefixes:
/// appending a digit multiplies by ten and adds something non-negative.
proof fn lemma_prefix_value_le(s: Seq<u8>, i: int)
    requires
        0 <= i <= s.len(),
        all_digits(s),
    ensures
        digits_value(s.take(i)) <= digits_value(s),
    decreases s.len() - i,
{
    if i < s.len() {
        assert(s.take(i + 1).drop_last() =~= s.take(i));
        assert(is_digit(s[i]));
        assert(s.take(i + 1).last() == s[i]);
        lemma_prefix_value_le(s, i + 1);
    } else {
        assert(s.take(i) =~= s);
    }
}

/// Parse an unsigned decimal string. Returns the value exactly when the
/// input is non-empty, all digits, and the value fits in a `u64`; returns
/// `None` otherwise. No sign, no whitespace, no radix prefixes.
pub fn parse_u64(s: &[u8]) -> (r: Option<u64>)
    ensures
        match r {
            Some(n) => {
                &&& s@.len() > 0
                &&& all_digits(s@)
                &&& digits_value(s@) <= u64::MAX
                &&& n == digits_value(s@)
            },
            None => s@.len() == 0 || !all_digits(s@) || digits_value(s@) > u64::MAX,
        },
{
    let n = s.len();
    if n == 0 {
        return None;
    }
    let mut acc: u128 = 0;
    let mut i: usize = 0;
    while i < n
        invariant
            n == s@.len(),
            i <= n,
            all_digits(s@.take(i as int)),
            acc == digits_value(s@.take(i as int)),
            acc <= u64::MAX,
        decreases n - i,
    {
        let b = s[i];
        if b < 48 || b > 57 {
            assert(!all_digits(s@));
            return None;
        }
        assert(s@.take(i + 1).drop_last() =~= s@.take(i as int));
        assert(s@.take(i + 1).last() == s@[i as int]);
        let acc2: u128 = acc * 10 + ((b - 48) as u128);
        assert(acc2 == digits_value(s@.take(i + 1)));
        if acc2 > 0xffff_ffff_ffff_ffffu128 {
            assert(all_digits(s@) ==> digits_value(s@) > u64::MAX) by {
                if all_digits(s@) {
                    lemma_prefix_value_le(s@, i + 1);
                }
            }
            return None;
        }
        acc = acc2;
        i = i + 1;
    }
    assert(s@.take(n as int) =~= s@);
    Some(acc as u64)
}

} // verus!
