//! Hamming distance of two equal-length byte strings: the number of
//! bit positions in which they differ.

use vstd::prelude::*;

verus! {

/// Number of set bits in one byte.
pub open spec fn count_ones_u8(b: u8) -> int {
    ((b >> 0) & 1) as int + ((b >> 1) & 1) as int + ((b >> 2) & 1) as int + ((b >> 3) & 1) as int
        + ((b >> 4) & 1) as int + ((b >> 5) & 1) as int + ((b >> 6) & 1) as int + ((b >> 7)
        & 1) as int
}

/// Each bit contributes at most one, so a byte holds at most eight set bits.
pub proof fn lemma_count_ones_u8_bound(b: u8)
    ensures
        0 <= count_ones_u8(b) <= 8,
{
    assert(((b >> 0) & 1) <= 1 && ((b >> 1) & 1) <= 1 && ((b >> 2) & 1) <= 1 && ((b >> 3) & 1) <= 1
        && ((b >> 4) & 1) <= 1 && ((b >> 5) & 1) <= 1 && ((b >> 6) & 1) <= 1 && ((b >> 7) & 1)
        <= 1) by (bit_vector);
}

/// Total number of differing bits between two byte sequences of equal length.
pub open spec fn spec_hamming_distance(a: Seq<u8>, b: Seq<u8>) -> int
    recommends
        a.len() == b.len(),
    decreases a.len(),
{
    if a.len() == 0 {
        0
    } else {
        spec_hamming_distance(a.drop_last(), b.drop_last()) + count_ones_u8(a.last() ^ b.last())
    }
}

/// Computes the Hamming distance of two equal length byte arrays;
/// `None` when the lengths differ.
pub fn hamming_distance(a: &[u8], b: &[u8]) -> (r: Option<u32>)
    requires
        a@.len() <= 0x1fff_ffff,
    ensures
        match r {
            Some(d) => a@.len() == b@.len() && d == spec_hamming_distance(a@, b@),
            None => a@.len() != b@.len(),
        },
{
    if a.len() != b.len() {
        return None;
    }

    let mut count: u32 = 0;
    let mut i: usize = 0;
    while i < a.len()
        invariant
            a@.len() == b@.len() <= 0x1fff_ffff,
            i <= a@.len(),
            count == spec_hamming_distance(a@.take(i as int), b@.take(i as int)),
            count <= 8 * i,
        decreases a@.len() - i,
    {
        let x: u8 = a[i] ^ b[i];
        let ones: u32 = ((x >> 0u8) & 1) as u32 + ((x >> 1u8) & 1) as u32 + ((x >> 2u8)
            & 1) as u32 + ((x >> 3u8) & 1) as u32 + ((x >> 4u8) & 1) as u32 + ((x >> 5u8)
            & 1) as u32 + ((x >> 6u8) & 1) as u32 + ((x >> 7u8) & 1) as u32;
        proof {
            lemma_count_ones_u8_bound(x);
            assert(a@.take(i + 1).drop_last() =~= a@.take(i as int));
            assert(b@.take(i + 1).drop_last() =~= b@.take(i as int));
            assert(a@.take(i + 1).last() == a@[i as int]);
            assert(b@.take(i + 1).last() == b@[i as int]);
        }
        count = count + ones;
        i = i + 1;
    }
    proof {
        assert(a@.take(a@.len() as int) =~= a@);
        assert(b@.take(b@.len() as int) =~= b@);
    }
    Some(count)
}

} // verus!
