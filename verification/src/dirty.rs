//! Dirty-page bitmap arithmetic.
//!
//! The hardware reports modified pages as a page-granular bitmap, one bit
//! per page packed into 64-bit words. The dirty-page count of a region is
//! the number of set bits over the whole bitmap.

use vstd::prelude::*;

verus! {

/// The number of set bits among the `k` lowest bits of `x`.
pub open spec fn count_low_bits(x: u64, k: nat) -> nat
    decreases k,
{
    if k == 0 {
        0
    } else {
        (x % 2) as nat + count_low_bits((x / 2) as u64, (k - 1) as nat)
    }
}

/// The number of set bits of one bitmap word.
pub open spec fn count_ones_u64(x: u64) -> nat {
    count_low_bits(x, 64)
}

/// The number of set bits over a whole bitmap.
pub open spec fn count_set_bits(s: Seq<u64>) -> nat
    decreases s.len(),
{
    if s.len() == 0 {
        0
    } else {
        count_ones_u64(s[0]) + count_set_bits(s.drop_first())
    }
}

/// At most `k` of the `k` lowest bits are set.
pub proof fn lemma_count_low_bits_le(x: u64, k: nat)
    ensures
        count_low_bits(x, k) <= k,
    decreases k,
{
    if k > 0 {
        lemma_count_low_bits_le((x / 2) as u64, (k - 1) as nat);
    }
}

proof fn lemma_count_low_bits_zero(k: nat)
    ensures
        count_low_bits(0u64, k) == 0,
    decreases k,
{
    if k > 0 {
        lemma_count_low_bits_zero((k - 1) as nat);
    }
}

/// Before any write the hardware log is clear: a bitmap whose words are
/// all zero counts zero dirty pages.
pub proof fn lemma_zero_bitmap_counts_zero(s: Seq<u64>)
    requires
        forall|i: int| 0 <= i < s.len() ==> s[i] == 0u64,
    ensures
        count_set_bits(s) == 0,
    decreases s.len(),
{
    if s.len() > 0 {
        lemma_count_low_bits_zero(64);
        lemma_zero_bitmap_counts_zero(s.drop_first());
    }
}

/// The number of set bits of one word, by repeated halving.
fn popcount_u64(x: u64) -> (n: u64)
    ensures
        n == count_ones_u64(x),
{
    let mut v: u64 = x;
    let mut n: u64 = 0;
    let mut k: usize = 64;
    while k > 0
        invariant
            k <= 64,
            n <= 64 - k,
            n + count_low_bits(v, k as nat) == count_ones_u64(x),
        decreases k,
    {
        assert(count_low_bits(v, k as nat) == (v % 2) as nat + count_low_bits(
            (v / 2) as u64,
            (k - 1) as nat,
        ));
        n = n + v % 2;
        v = v / 2;
        k = k - 1;
    }
    n
}

/// Counts the set bits over a dirty-page bitmap, as reported by the
/// hardware log for one region.
pub fn count_dirty_pages(bitmap: &[u64]) -> (n: u64)
    requires
        64 * bitmap@.len() <= u64::MAX,
    ensures
        n == count_set_bits(bitmap@),
{
    let mut n: u64 = 0;
    let mut i: usize = 0;
    proof {
        assert(bitmap@.skip(0) =~= bitmap@);
    }
    while i < bitmap.len()
        invariant
            i <= bitmap@.len(),
            64 * bitmap@.len() <= u64::MAX,
            n <= 64 * i,
            n + count_set_bits(bitmap@.skip(i as int)) == count_set_bits(bitmap@),
        decreases bitmap@.len() - i,
    {
        proof {
            assert(bitmap@.skip(i as int)[0] == bitmap@[i as int]);
            assert(bitmap@.skip(i as int).drop_first() =~= bitmap@.skip(i as int + 1));
            lemma_count_low_bits_le(bitmap@[i as int], 64);
        }
        let w: u64 = popcount_u64(bitmap[i]);
        n = n + w;
        i = i + 1;
    }
    n
}

} // verus!
