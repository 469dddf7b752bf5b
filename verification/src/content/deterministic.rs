//! Deterministic synthetic content.
//!
//! Bytes are a pure function of `(ino, offset, seed)`: nothing is stored.

use vstd::prelude::*;

use crate::bits::{
    fold, folded, folding_is_injective, rotate_left, rotated, rotation_is_injective,
    scaling_is_injective,
};
use crate::content::ContentModel;
use crate::error::FsError;

verus! {

/// The first factor of the finalizer.
pub const SYNTH_A: u64 = 0xff51_afd7_ed55_8ccd;

/// The second factor of the finalizer.
pub const SYNTH_B: u64 = 0xc4ce_b9fe_1a85_ec53;

/// The word that the byte of `(ino, offset, seed)` is the lowest byte of.
pub open spec fn synth_word(ino: u64, offset: u64, seed: u64) -> u64 {
    let x = seed ^ rotated(ino, 17) ^ rotated(offset, 31);
    folded(folded(folded(x, 33).wrapping_mul(SYNTH_A), 33).wrapping_mul(SYNTH_B), 33)
}

/// The byte of the file `ino` at `offset` under `seed`.
pub open spec fn synthesized(ino: u64, offset: u64, seed: u64) -> u8 {
    (synth_word(ino, offset, seed) % 256) as u8
}

/// Generate a single deterministic byte from `(ino, offset, seed)`.
pub fn synth_byte(ino: u64, offset: u64, seed: u64) -> (byte: u8)
    ensures
        byte == synthesized(ino, offset, seed),
{
    let mut x: u64 = seed ^ rotate_left(ino, 17) ^ rotate_left(offset, 31);
    x = fold(x, 33);
    x = x.wrapping_mul(SYNTH_A);
    x = fold(x, 33);
    x = x.wrapping_mul(SYNTH_B);
    (fold(x, 33) % 256) as u8
}

/// Deterministic content store backed by [`synth_byte`].
///
/// The same `(ino, offset)` pair always yields the same byte for a given seed.
#[derive(Copy, Clone, Debug, PartialEq, Eq, Structural)]
pub struct DeterministicContent {
    seed: u64,
    file_len: u64,
}

impl DeterministicContent {
    /// The seed used to derive synthetic bytes.
    pub closed spec fn seed_of(self) -> u64 {
        self.seed
    }

    /// The length of every file.
    pub closed spec fn common_len(self) -> u64 {
        self.file_len
    }

    /// Create a new deterministic content store.
    pub fn new(seed: u64, file_len: u64) -> (content: Self)
        ensures
            content.seed_of() == seed,
            content.common_len() == file_len,
    {
        DeterministicContent { seed, file_len }
    }

    /// The seed used to derive synthetic bytes.
    pub fn seed(&self) -> (seed: u64)
        ensures
            seed == self.seed_of(),
    {
        self.seed
    }
}

impl ContentModel for DeterministicContent {
    open spec fn len_of(&self, ino: u64) -> u64 {
        self.common_len()
    }

    open spec fn byte_at(&self, ino: u64, offset: u64) -> u8 {
        synthesized(ino, offset, self.seed_of())
    }

    open spec fn answer_to(&self, ino: u64, offset: u64, data: Seq<u8>) -> Result<usize, FsError> {
        Ok(data.len() as usize)
    }

    fn file_len(&self, _ino: u64) -> (len: u64) {
        self.file_len
    }

    fn read_at(&self, ino: u64, offset: u64, dst: &mut [u8]) {
        let len: usize = dst.len();
        let mut i: usize = 0;
        while i < len
            invariant
                i <= len,
                len == dst@.len(),
                len == old(dst)@.len(),
                forall|j: int|
                    0 <= j < i ==> dst@[j] == self.byte_at(ino, offset.wrapping_add(j as u64)),
            decreases len - i,
        {
            dst[i] = synth_byte(ino, offset.wrapping_add(i as u64), self.seed);
            i = i + 1;
        }
    }

    fn write_at(&self, _ino: u64, _offset: u64, data: &[u8]) -> (written: Result<usize, FsError>) {
        Ok(data.len())
    }
}

/// Bytes that differ in just one of inode, offset and seed come from different words.
pub proof fn every_coordinate_matters(
    ino: u64,
    offset: u64,
    seed: u64,
    other_ino: u64,
    other_offset: u64,
    other_seed: u64,
)
    ensures
        synth_word(ino, offset, seed) == synth_word(other_ino, offset, seed) <==> ino == other_ino,
        synth_word(ino, offset, seed) == synth_word(ino, other_offset, seed) <==> offset
            == other_offset,
        synth_word(ino, offset, seed) == synth_word(ino, offset, other_seed) <==> seed
            == other_seed,
{
    let a = rotated(ino, 17);
    let b = rotated(other_ino, 17);
    let c = rotated(offset, 31);
    let d = rotated(other_offset, 31);
    rotation_is_injective(ino, other_ino, 17);
    rotation_is_injective(offset, other_offset, 31);
    assert(seed ^ a ^ c == seed ^ b ^ c ==> a == b) by (bit_vector);
    assert(seed ^ a ^ c == seed ^ a ^ d ==> c == d) by (bit_vector);
    assert(seed ^ a ^ c == other_seed ^ a ^ c ==> seed == other_seed) by (bit_vector);
    lemma_synth_finalizer_is_injective(seed ^ a ^ c, seed ^ b ^ c);
    lemma_synth_finalizer_is_injective(seed ^ a ^ c, seed ^ a ^ d);
    lemma_synth_finalizer_is_injective(seed ^ a ^ c, other_seed ^ a ^ c);
}

proof fn lemma_synth_finalizer_is_injective(x: u64, y: u64)
    ensures
        folded(folded(folded(x, 33).wrapping_mul(SYNTH_A), 33).wrapping_mul(SYNTH_B), 33) == folded(
            folded(folded(y, 33).wrapping_mul(SYNTH_A), 33).wrapping_mul(SYNTH_B),
            33,
        ) <==> x == y,
{
    let x1 = folded(x, 33);
    let y1 = folded(y, 33);
    let x2 = folded(x1.wrapping_mul(SYNTH_A), 33);
    let y2 = folded(y1.wrapping_mul(SYNTH_A), 33);
    folding_is_injective(x, y, 33);
    scaling_is_injective(x1, y1, SYNTH_A, 0x4f74_430c_22a5_4005);
    folding_is_injective(x1.wrapping_mul(SYNTH_A), y1.wrapping_mul(SYNTH_A), 33);
    scaling_is_injective(x2, y2, SYNTH_B, 0x9cb4_b2f8_1293_37db);
    folding_is_injective(x2.wrapping_mul(SYNTH_B), y2.wrapping_mul(SYNTH_B), 33);
}

/// The byte at every position of every file is the lowest byte of the word of its
/// own inode, offset and seed; files have the common length; and writes are taken
/// in full.
pub proof fn bytes_are_those_of_their_coordinates(
    content: DeterministicContent,
    ino: u64,
    offset: u64,
    data: Seq<u8>,
)
    requires
        data.len() <= usize::MAX,
    ensures
        content.byte_at(ino, offset) as int == synth_word(ino, offset, content.seed_of()) as int
            % 256,
        content.len_of(ino) == content.common_len(),
        content.answer_to(ino, offset, data) matches Ok(taken) && taken == data.len(),
{
}

} // verus!
