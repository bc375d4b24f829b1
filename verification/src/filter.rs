//! Match filter: accept an address when enough of its trailing characters
//! repeat.  Addresses are ASCII, so the filter works on their bytes.

use vstd::prelude::*;

verus! {

/// Length of the maximal suffix of `s` whose bytes all equal the last byte.
/// It is 0 only for the empty sequence.
pub open spec fn trailing_run(s: Seq<u8>) -> nat
    decreases s.len(),
{
    if s.len() == 0 {
        0
    } else if s.len() >= 2 && s[s.len() - 2] == s[s.len() - 1] {
        (1 + trailing_run(s.drop_last())) as nat
    } else {
        1
    }
}

/// An address qualifies when its trailing run reaches the threshold.
pub open spec fn spec_accept(s: Seq<u8>, threshold: nat) -> bool {
    trailing_run(s) >= threshold
}

/// A count that covers a uniform suffix and stops at a differing byte (or at
/// the front) is exactly the trailing run.
pub proof fn lemma_trailing_run_exact(s: Seq<u8>, r: nat)
    requires
        s.len() > 0,
        1 <= r <= s.len(),
        forall|i: int| s.len() - r <= i < s.len() ==> s[i] == s.last(),
        r < s.len() ==> s[s.len() - r - 1] != s.last(),
    ensures
        trailing_run(s) == r,
    decreases s.len(),
{
    if r >= 2 {
        assert(s[s.len() - 2] == s.last());
        let t = s.drop_last();
        assert(t.last() == s[s.len() - 2]);
        assert forall|i: int| t.len() - (r - 1) <= i < t.len() implies t[i] == t.last() by {
            assert(t[i] == s[i]);
        }
        lemma_trailing_run_exact(t, (r - 1) as nat);
    } else {
        if s.len() >= 2 {
            assert(s[s.len() - r - 1] != s.last());
        }
    }
}

/// Number of consecutive bytes equal to the last byte, counted from the end.
pub fn trailing_run_length(s: &[u8]) -> (r: usize)
    ensures
        r == trailing_run(s@),
{
    let n = s.len();
    if n == 0 {
        return 0;
    }
    let last = s[n - 1];
    let mut count: usize = 1;
    while count < n && s[n - 1 - count] == last
        invariant
            n == s@.len(),
            0 < n,
            1 <= count <= n,
            last == s@.last(),
            forall|i: int| n - count <= i < n ==> s@[i] == last,
        decreases n - count,
    {
        count = count + 1;
    }
    proof {
        lemma_trailing_run_exact(s@, count as nat);
    }
    count
}

/// True exactly when the trailing run of `s` reaches `threshold`.
pub fn accept(s: &[u8], threshold: usize) -> (r: bool)
    ensures
        r == spec_accept(s@, threshold as nat),
{
    trailing_run_length(s) >= threshold
}

/// Accepting at a threshold implies accepting at every smaller threshold.
pub proof fn lemma_accept_monotonic(s: Seq<u8>, k: nat, k2: nat)
    requires
        spec_accept(s, k),
        k2 <= k,
    ensures
        spec_accept(s, k2),
{
}

/// The character an accepted address repeats: its last byte, or `'?'` for an
/// empty string.
pub fn get_repeated_char(s: &[u8]) -> (r: u8)
    ensures
        s@.len() == 0 ==> r == 0x3fu8,
        s@.len() > 0 ==> r == s@.last(),
{
    if s.len() == 0 {
        0x3f
    } else {
        s[s.len() - 1]
    }
}

} // verus!
