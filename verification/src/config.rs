//! Recognised configuration values and the parsing of the environment
//! override for the threshold: a decimal string (with an optional leading
//! `'+'`), or the default where it does not parse.

use vstd::prelude::*;

verus! {

/// Default minimum trailing same-character count.
pub const DEFAULT_MIN_SAME_CHARS: usize = 6;

/// Default batch size.
pub const DEFAULT_BATCH_SIZE: usize = 50000;

pub open spec fn is_ascii_digit(b: u8) -> bool {
    0x30 <= b <= 0x39
}

pub open spec fn all_digits(s: Seq<u8>) -> bool {
    forall|i: int| 0 <= i < s.len() ==> is_ascii_digit(s[i])
}

/// The number a digit string stands for, most significant digit first.
pub open spec fn digits_value(s: Seq<u8>) -> nat
    decreases s.len(),
{
    if s.len() == 0 {
        0
    } else {
        (digits_value(s.drop_last()) * 10 + (s.last() - 0x30)) as nat
    }
}

/// The value a string parses to as a `usize`: its digits (after an optional
/// leading `'+'`), where they are nonempty, all decimal and in range.
pub open spec fn parsed_usize_of(s: Seq<u8>) -> Option<nat> {
    let t = if s.len() > 0 && s[0] == 0x2b {
        s.drop_first()
    } else {
        s
    };
    if t.len() > 0 && all_digits(t) && digits_value(t) <= usize::MAX as nat {
        Some(digits_value(t))
    } else {
        None
    }
}

/// A digit string is worth at least any of its prefixes.
proof fn lemma_digits_value_prefix_le(s: Seq<u8>, i: int)
    requires
        0 <= i <= s.len(),
        all_digits(s),
    ensures
        digits_value(s.subrange(0, i)) <= digits_value(s),
    decreases s.len() - i,
{
    if i < s.len() {
        assert(s.subrange(0, i + 1).drop_last() =~= s.subrange(0, i));
        assert(s.subrange(0, i + 1).last() == s[i]);
        lemma_digits_value_prefix_le(s, i + 1);
    } else {
        assert(s.subrange(0, i) =~= s);
    }
}

fn parse_digits(t: &[u8]) -> (r: Option<usize>)
    ensures
        match r {
            Some(v) => t@.len() > 0 && all_digits(t@) && digits_value(t@) == v as nat,
            None => !(t@.len() > 0 && all_digits(t@) && digits_value(t@) <= usize::MAX as nat),
        },
{
    if t.len() == 0 {
        return None;
    }
    let mut acc: usize = 0;
    let mut i: usize = 0;
    while i < t.len()
        invariant
            i <= t@.len(),
            all_digits(t@.subrange(0, i as int)),
            acc as nat == digits_value(t@.subrange(0, i as int)),
        decreases t@.len() - i,
    {
        let b = t[i];
        if b < 0x30 || b > 0x39 {
            proof {
                assert(!is_ascii_digit(t@[i as int]));
            }
            return None;
        }
        let d = (b - 0x30) as u128;
        let wide = acc as u128 * 10 + d;
        proof {
            assert(t@.subrange(0, i + 1).drop_last() =~= t@.subrange(0, i as int));
            assert(t@.subrange(0, i + 1).last() == t@[i as int]);
        }
        if wide > usize::MAX as u128 {
            proof {
                if all_digits(t@) {
                    lemma_digits_value_prefix_le(t@, i + 1);
                }
            }
            return None;
        }
        acc = wide as usize;
        i = i + 1;
    }
    proof {
        assert(t@.subrange(0, t@.len() as int) =~= t@);
    }
    Some(acc)
}

/// Parses a `usize` the way the environment override is read: `None` exactly
/// where the string is empty, holds a non-digit after the optional sign, or
/// does not fit.
pub fn parse_usize(s: &[u8]) -> (r: Option<usize>)
    ensures
        match r {
            Some(v) => parsed_usize_of(s@) == Some(v as nat),
            None => parsed_usize_of(s@) is None,
        },
{
    if s.len() > 0 && s[0] == 0x2b {
        let t = vstd::slice::slice_subrange(s, 1, s.len());
        proof {
            assert(s@.drop_first() =~= s@.subrange(1, s@.len() as int));
        }
        parse_digits(t)
    } else {
        parse_digits(s)
    }
}

/// The threshold to run with: the parsed environment value, or the default
/// where none is set or it does not parse.
pub fn min_same_chars_or_default(env_value: Option<Vec<u8>>) -> (r: usize)
    ensures
        r as nat == match env_value {
            Some(s) => match parsed_usize_of(s@) {
                Some(v) => v,
                None => DEFAULT_MIN_SAME_CHARS as nat,
            },
            None => DEFAULT_MIN_SAME_CHARS as nat,
        },
{
    match env_value {
        Some(s) => match parse_usize(s.as_slice()) {
            Some(v) => v,
            None => DEFAULT_MIN_SAME_CHARS,
        },
        None => DEFAULT_MIN_SAME_CHARS,
    }
}

} // verus!
