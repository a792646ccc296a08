//! Bit reversal: the reflection primitive of the CRC algorithms.

use vstd::prelude::*;

verus! {

/// Reversal of the low `n` bits of `v`: bit `i` of the result is bit
/// `n - 1 - i` of `v`, and bits of `v` at position `n` and above are dropped.
pub open spec fn rev_bits(v: u64, n: u64) -> u64
    decreases n,
{
    if n == 0 {
        0u64
    } else {
        ((v & 1) << ((n - 1) as u64)) | rev_bits(v >> 1, (n - 1) as u64)
    }
}

/// Reverses the low `n` bits of `v`.
pub fn reverse_bits(v: u64, n: u64) -> (r: u64)
    requires
        n <= 64,
    ensures
        r == rev_bits(v, n),
    decreases n,
{
    if n == 0 {
        0
    } else {
        ((v & 1) << (n - 1)) | reverse_bits(v >> 1, n - 1)
    }
}

/// A reversal of `n < 64` bits leaves every bit at position `n` and above clear.
pub proof fn lemma_rev_bits_bound(v: u64, n: u64)
    requires
        n < 64,
    ensures
        rev_bits(v, n) >> n == 0,
    decreases n,
{
    if n == 0 {
        assert(0u64 >> n == 0) by (bit_vector)
            requires
                n == 0,
        ;
    } else {
        let m = (n - 1) as u64;
        lemma_rev_bits_bound(v >> 1, m);
        let rest = rev_bits(v >> 1, m);
        assert((((v & 1) << m) | rest) >> n == 0) by (bit_vector)
            requires
                rest >> m == 0 && m < 63 && n == m + 1,
        ;
    }
}

} // verus!
