//! Guessing the key size of a repeated-key XOR ciphertext.
//!
//! For each candidate key size, the normalized Hamming distance between
//! the first two blocks of that size estimates how likely the size is:
//! the smaller the distance, the more likely the size.

use crate::hamming_distance::{hamming_distance, spec_hamming_distance};
use vstd::prelude::*;
use vstd::slice::slice_subrange;

verus! {

/// One candidate key size with its normalized block distance.
#[derive(Clone, Debug)]
pub struct Candidate {
    /// The candidate key size.
    pub keysize: usize,
    /// The Hamming distance of the first two `keysize`-byte blocks,
    /// divided by the key size.
    pub distance: usize,
}

/// The normalized Hamming distance of the first two `ks`-byte blocks.
pub open spec fn spec_block_distance(bytes: Seq<u8>, ks: int) -> int
    recommends
        0 < 2 * ks <= bytes.len(),
{
    spec_hamming_distance(bytes.subrange(0, ks), bytes.subrange(ks, 2 * ks)) / ks
}

/// A key-size guesser for one ciphertext.
pub struct Crack {
    /// The ciphertext under analysis.
    pub cyphertext: Vec<u8>,
    /// Key sizes up to (excluding) this bound are tried.
    pub max_keysize: usize,
    /// The most likely candidate found so far.
    pub most_likely: Option<Candidate>,
}

impl Crack {
    /// A guesser for the given ciphertext and key-size bound.
    pub fn new(cyphertext: Vec<u8>, max_keysize: usize) -> (r: Self)
        ensures
            r.cyphertext@ == cyphertext@,
            r.max_keysize == max_keysize,
            r.most_likely is None,
    {
        Crack { cyphertext, max_keysize, most_likely: None }
    }

    /// Finds the most likely key size: the smallest size in
    /// `2..max_keysize` whose normalized block distance is minimal.
    pub fn get_most_likely(&mut self) -> (r: Result<(), ()>)
        requires
            3 <= old(self).max_keysize <= 0x1fff_ffff,
            old(self).cyphertext@.len() >= 2 * (old(self).max_keysize - 1),
        ensures
            r is Ok,
            final(self).cyphertext == old(self).cyphertext,
            final(self).max_keysize == old(self).max_keysize,
            final(self).most_likely matches Some(c) && {
                &&& 2 <= c.keysize < old(self).max_keysize
                &&& c.distance == spec_block_distance(old(self).cyphertext@, c.keysize as int)
                &&& forall|ks: int|
                    2 <= ks < old(self).max_keysize ==> #[trigger] spec_block_distance(
                        old(self).cyphertext@,
                        ks,
                    ) >= c.distance
                &&& forall|ks: int|
                    2 <= ks < c.keysize ==> #[trigger] spec_block_distance(
                        old(self).cyphertext@,
                        ks,
                    ) > c.distance
            },
    {
        let first = Crack::block_distance(&self.cyphertext, 2);
        let mut best = Candidate { keysize: 2, distance: first };
        let mut keysize: usize = 3;

        while keysize < self.max_keysize
            invariant
                3 <= self.max_keysize <= 0x1fff_ffff,
                self.cyphertext@.len() >= 2 * (self.max_keysize - 1),
                3 <= keysize <= self.max_keysize,
                2 <= best.keysize < keysize,
                best.distance == spec_block_distance(self.cyphertext@, best.keysize as int),
                forall|ks: int|
                    2 <= ks < keysize ==> #[trigger] spec_block_distance(self.cyphertext@, ks)
                        >= best.distance,
                forall|ks: int|
                    2 <= ks < best.keysize ==> #[trigger] spec_block_distance(
                        self.cyphertext@,
                        ks,
                    ) > best.distance,
            decreases self.max_keysize - keysize,
        {
            let distance = Crack::block_distance(&self.cyphertext, keysize);
            if distance < best.distance {
                best = Candidate { keysize, distance };
            }
            keysize = keysize + 1;
        }

        self.most_likely = Some(best);
        Ok(())
    }

    /// The normalized Hamming distance of the first two `ks`-byte
    /// blocks of the ciphertext.
    fn block_distance(cyphertext: &Vec<u8>, ks: usize) -> (r: usize)
        requires
            2 <= ks <= 0x1fff_ffff,
            cyphertext@.len() >= 2 * ks,
        ensures
            r == spec_block_distance(cyphertext@, ks as int),
    {
        let ks1 = slice_subrange(cyphertext.as_slice(), 0, ks);
        let ks2 = slice_subrange(cyphertext.as_slice(), ks, 2 * ks);
        let distance = hamming_distance(ks1, ks2);
        match distance {
            Some(d) => (d as usize) / ks,
            None => 0,
        }
    }
}

} // verus!
