//! Parsing a textual record id into its numeric key.
//!
//! A record id arrives as text; the store is keyed by the `u64` it denotes.
//! A string is accepted exactly when it is non-empty, consists of decimal
//! digits only, and denotes a value that fits in a `u64`.

use vstd::prelude::*;

verus! {

/// `c` is a decimal digit (`'0'` to `'9'`).
pub open spec fn is_ascii_digit(c: char) -> bool {
    48 <= c as u32 && c as u32 <= 57
}

/// The numeric value of the digit `c`.
pub open spec fn digit_value(c: char) -> nat {
    (c as u32 - 48) as nat
}

/// Every character of `s` is a decimal digit.
pub open spec fn all_digits(s: Seq<char>) -> bool {
    forall|i: int| 0 <= i < s.len() ==> is_ascii_digit(#[trigger] s[i])
}

/// The value of `s` read as a decimal numeral, most significant digit first.
pub open spec fn digits_value(s: Seq<char>) -> nat
    decreases s.len(),
{
    if s.len() == 0 {
        0
    } else {
        digits_value(s.drop_last()) * 10 + digit_value(s.last())
    }
}

/// `s` is a valid textual key: non-empty, digits only, and its value fits in a `u64`.
pub open spec fn is_u64_string(s: Seq<char>) -> bool {
    &&& s.len() > 0
    &&& all_digits(s)
    &&& digits_value(s) <= u64::MAX
}

/// Appending a digit multiplies the value by ten and adds the digit.
proof fn lemma_digits_value_push(s: Seq<char>, c: char)
    ensures
        digits_value(s.push(c)) == digits_value(s) * 10 + digit_value(c),
{
    assert(s.push(c).drop_last() =~= s);
    assert(s.push(c).last() == c);
}

/// A numeral's value is at least the value of any of its prefixes.
proof fn lemma_digits_value_prefix_le(s: Seq<char>, i: int)
    requires
        0 <= i <= s.len(),
    ensures
        digits_value(s.subrange(0, i)) <= digits_value(s),
    decreases s.len() - i,
{
    if i < s.len() {
        assert(s.subrange(0, i + 1) =~= s.subrange(0, i).push(s[i]));
        lemma_digits_value_push(s.subrange(0, i), s[i]);
        lemma_digits_value_prefix_le(s, i + 1);
    } else {
        assert(s.subrange(0, i) =~= s);
    }
}

/// Parses `s` as a decimal `u64`.
///
/// Returns the denoted value exactly when `s` is non-empty, all digits, and
/// in range; otherwise `None`.
pub fn parse_u64(s: &str) -> (r: Option<u64>)
    ensures
        match r {
            Some(v) => is_u64_string(s@) && v == digits_value(s@),
            None => !is_u64_string(s@),
        },
{
    let n = s.unicode_len();
    if n == 0 {
        return None;
    }
    let mut acc: u64 = 0;
    let mut i: usize = 0;
    while i < n
        invariant
            0 < n == s@.len(),
            i <= n,
            all_digits(s@.subrange(0, i as int)),
            acc == digits_value(s@.subrange(0, i as int)),
        decreases n - i,
    {
        let c = s.get_char(i);
        let cv = c as u32;
        if cv < 48 || cv > 57 {
            assert(!is_ascii_digit(s@[i as int]));
            return None;
        }
        let d = (cv - 48) as u64;
        proof {
            lemma_digits_value_push(s@.subrange(0, i as int), s@[i as int]);
            assert(s@.subrange(0, i + 1) =~= s@.subrange(0, i as int).push(s@[i as int]));
        }
        let widened = match acc.checked_mul(10) {
            Some(w) => w,
            None => {
                proof {
                    lemma_digits_value_prefix_le(s@, i + 1);
                }
                return None;
            },
        };
        acc = match widened.checked_add(d) {
            Some(a) => a,
            None => {
                proof {
                    lemma_digits_value_prefix_le(s@, i + 1);
                }
                return None;
            },
        };
        i = i + 1;
    }
    proof {
        assert(s@.subrange(0, n as int) =~= s@);
    }
    Some(acc)
}

} // verus!
