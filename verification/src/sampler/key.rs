//! Deterministic derivation of random words from a call's key.
//!
//! A [`SampleKey`] captures every dimension of one sampling event. Together
//! with a stream constant (latency or fault) it is mixed into the seed of a
//! generator of its own.

use rand::rngs::StdRng;
use rand::{Rng, SeedableRng};
use vstd::prelude::*;

use crate::bits::{
    fold, folded, folding_is_injective, rotate_left, rotated, rotation_is_injective,
    scaling_is_injective,
};
use crate::binary64::DRAWS;
use crate::op::{all_lists_every_op_once, FsOp};

verus! {

/// Stream constant for latency sampling.
pub const LATENCY_STREAM: u64 = 0xA5A5_A5A5_A5A5_A5A5;

/// Stream constant for fault sampling.
pub const FAULT_STREAM: u64 = 0x5A5A_5A5A_5A5A_5A5A;

/// The first factor of the finalizer.
pub const MIX_A: u64 = 0xbf58_476d_1ce4_e5b9;

/// The second factor of the finalizer.
pub const MIX_B: u64 = 0x94d0_49bb_1331_11eb;

/// A fully-determined sampling key.
///
/// Every field contributes to the derived seed: identical keys produce
/// identical samples, and a change of any one field gives another seed.
#[derive(Copy, Clone, Debug, PartialEq, Eq, Structural)]
pub struct SampleKey {
    /// Master seed from config.
    pub seed: u64,
    /// The filesystem operation being performed.
    pub op: FsOp,
    /// Inode number.
    pub ino: u64,
    /// Byte offset within the file (0 for metadata ops).
    pub offset: u64,
    /// Request length in bytes (0 for metadata ops).
    pub len: u32,
    /// Monotonic sequence number (unique per call site).
    pub seq: u64,
}

impl SampleKey {
    /// All fields and the stream in one word.
    pub open spec fn gathered(self, stream: u64) -> u64 {
        self.seed ^ rotated(self.op.position() as u64, 11) ^ rotated(self.ino, 23) ^ rotated(
            self.offset,
            37,
        ) ^ rotated(self.len as u64, 47) ^ rotated(self.seq, 53) ^ stream
    }

    /// The seed of the generator for this key and stream.
    pub open spec fn mixed(self, stream: u64) -> u64 {
        finalized(self.gathered(stream))
    }
}

/// The splitmix64 finalizer.
pub open spec fn finalized(z: u64) -> u64 {
    folded(folded(folded(z, 30).wrapping_mul(MIX_A), 27).wrapping_mul(MIX_B), 31)
}

/// Mix all key fields with a stream constant.
pub fn mix(key: SampleKey, stream: u64) -> (seed: u64)
    ensures
        seed == key.mixed(stream),
{
    let mut z: u64 = key.seed ^ rotate_left(key.op.index() as u64, 11) ^ rotate_left(key.ino, 23)
        ^ rotate_left(key.offset, 37) ^ rotate_left(key.len as u64, 47) ^ rotate_left(key.seq, 53)
        ^ stream;
    z = fold(z, 30).wrapping_mul(MIX_A);
    z = fold(z, 27).wrapping_mul(MIX_B);
    fold(z, 31)
}

/// The word number `i`, from zero, that a generator with the given seed yields.
pub uninterp spec fn std_rng_word(seed: u64, i: nat) -> u64;

/// The first `n` words of the generator with the given seed.
pub open spec fn std_rng_words(seed: u64, n: nat) -> Seq<u64> {
    Seq::new(n, |i: int| std_rng_word(seed, i as nat))
}

/// `rand`'s `StdRng::seed_from_u64`, then `Rng::random_iter` for `n` words.
///
/// Claimed: the words are the first `n` of a sequence that the seed alone
/// determines. The generator is a stream cipher on a key spread out from the
/// seed and reads nothing else.
#[verifier::external_body]
fn draw_words(seed: u64, n: usize) -> (words: Vec<u64>)
    ensures
        words@ == Seq::new(n as nat, |i: int| std_rng_word(seed, i as nat)),
{
    StdRng::seed_from_u64(seed).random_iter().take(n).collect()
}

/// The first `n` random words for latency sampling with this key.
pub fn latency_words(key: SampleKey, n: usize) -> (words: Vec<u64>)
    ensures
        words@ == std_rng_words(key.mixed(LATENCY_STREAM), n as nat),
{
    draw_words(mix(key, LATENCY_STREAM), n)
}

/// The first `n` random words for fault sampling with this key.
pub fn fault_words(key: SampleKey, n: usize) -> (words: Vec<u64>)
    ensures
        words@ == std_rng_words(key.mixed(FAULT_STREAM), n as nat),
{
    draw_words(mix(key, FAULT_STREAM), n)
}

/// The uniform draw that a random word stands for: `draw_of(word)` / 2^53, from
/// the upper 53 bits of the word.
pub open spec fn uniform(word: u64) -> u64 {
    word / 2048
}

/// The uniform draw that a random word stands for, in units of 2^-53.
pub fn draw_of(word: u64) -> (draw: u64)
    ensures
        draw == uniform(word),
        draw < DRAWS,
{
    word / 2048
}

// --- Laws ---

/// The finalizer loses nothing: different words stay different.
pub proof fn finalizer_is_injective(a: u64, b: u64)
    ensures
        finalized(a) == finalized(b) <==> a == b,
{
    let a1 = folded(a, 30);
    let b1 = folded(b, 30);
    let a2 = folded(a1.wrapping_mul(MIX_A), 27);
    let b2 = folded(b1.wrapping_mul(MIX_A), 27);
    folding_is_injective(a, b, 30);
    scaling_is_injective(a1, b1, MIX_A, 0x96de_1b17_3f11_9089);
    folding_is_injective(a1.wrapping_mul(MIX_A), b1.wrapping_mul(MIX_A), 27);
    scaling_is_injective(a2, b2, MIX_B, 0x3196_42b2_d24d_8ec3);
    folding_is_injective(a2.wrapping_mul(MIX_B), b2.wrapping_mul(MIX_B), 31);
}

/// The latency and the fault stream of a key have different seeds.
pub proof fn streams_differ(key: SampleKey)
    ensures
        key.mixed(LATENCY_STREAM) != key.mixed(FAULT_STREAM),
{
    let rest = key.gathered(0);
    lemma_gathered_splits(key, LATENCY_STREAM);
    lemma_gathered_splits(key, FAULT_STREAM);
    assert(rest ^ 0xA5A5_A5A5_A5A5_A5A5u64 != rest ^ 0x5A5A_5A5A_5A5A_5A5Au64) by (bit_vector);
    finalizer_is_injective(key.gathered(LATENCY_STREAM), key.gathered(FAULT_STREAM));
}

proof fn lemma_gathered_splits(key: SampleKey, stream: u64)
    ensures
        key.gathered(stream) == key.gathered(0) ^ stream,
{
    let rest = key.seed ^ rotated(key.op.position() as u64, 11) ^ rotated(key.ino, 23) ^ rotated(
        key.offset,
        37,
    ) ^ rotated(key.len as u64, 47) ^ rotated(key.seq, 53);
    assert(rest ^ stream == (rest ^ 0u64) ^ stream) by (bit_vector);
}

/// Whether two keys agree in all fields but at most one.
pub open spec fn one_field_apart(a: SampleKey, b: SampleKey) -> bool {
    ||| a == SampleKey { seed: a.seed, ..b }
    ||| a == SampleKey { op: a.op, ..b }
    ||| a == SampleKey { ino: a.ino, ..b }
    ||| a == SampleKey { offset: a.offset, ..b }
    ||| a == SampleKey { len: a.len, ..b }
    ||| a == SampleKey { seq: a.seq, ..b }
}

/// A change of any one field of a key changes the seed of its generators.
pub proof fn every_field_matters(a: SampleKey, b: SampleKey, stream: u64)
    requires
        one_field_apart(a, b),
    ensures
        a.mixed(stream) == b.mixed(stream) <==> a == b,
{
    all_lists_every_op_once(a.op, b.op.position());
    rotation_is_injective(a.op.position() as u64, b.op.position() as u64, 11);
    rotation_is_injective(a.ino, b.ino, 23);
    rotation_is_injective(a.offset, b.offset, 37);
    rotation_is_injective(a.len as u64, b.len as u64, 47);
    rotation_is_injective(a.seq, b.seq, 53);
    lemma_one_part_changes(
        a.seed,
        rotated(a.op.position() as u64, 11),
        rotated(a.ino, 23),
        rotated(a.offset, 37),
        rotated(a.len as u64, 47),
        rotated(a.seq, 53),
        b.seed,
        rotated(b.op.position() as u64, 11),
        rotated(b.ino, 23),
        rotated(b.offset, 37),
        rotated(b.len as u64, 47),
        rotated(b.seq, 53),
        stream,
    );
    finalizer_is_injective(a.gathered(stream), b.gathered(stream));
}

proof fn lemma_one_part_changes(
    a0: u64,
    a1: u64,
    a2: u64,
    a3: u64,
    a4: u64,
    a5: u64,
    b0: u64,
    b1: u64,
    b2: u64,
    b3: u64,
    b4: u64,
    b5: u64,
    stream: u64,
)
    requires
        (a0 == b0 || (a1 == b1 && a2 == b2 && a3 == b3 && a4 == b4 && a5 == b5)),
        (a1 == b1 || (a0 == b0 && a2 == b2 && a3 == b3 && a4 == b4 && a5 == b5)),
        (a2 == b2 || (a0 == b0 && a1 == b1 && a3 == b3 && a4 == b4 && a5 == b5)),
        (a3 == b3 || (a0 == b0 && a1 == b1 && a2 == b2 && a4 == b4 && a5 == b5)),
        (a4 == b4 || (a0 == b0 && a1 == b1 && a2 == b2 && a3 == b3 && a5 == b5)),
        (a5 == b5 || (a0 == b0 && a1 == b1 && a2 == b2 && a3 == b3 && a4 == b4)),
    ensures
        a0 ^ a1 ^ a2 ^ a3 ^ a4 ^ a5 ^ stream == b0 ^ b1 ^ b2 ^ b3 ^ b4 ^ b5 ^ stream ==> a0 == b0
            && a1 == b1 && a2 == b2 && a3 == b3 && a4 == b4 && a5 == b5,
{
    assert(a0 ^ a1 ^ a2 ^ a3 ^ a4 ^ a5 ^ stream == b0 ^ b1 ^ b2 ^ b3 ^ b4 ^ b5 ^ stream ==> a0 == b0
        && a1 == b1 && a2 == b2 && a3 == b3 && a4 == b4 && a5 == b5) by (bit_vector)
        requires
            (a0 == b0 || (a1 == b1 && a2 == b2 && a3 == b3 && a4 == b4 && a5 == b5)),
            (a1 == b1 || (a0 == b0 && a2 == b2 && a3 == b3 && a4 == b4 && a5 == b5)),
            (a2 == b2 || (a0 == b0 && a1 == b1 && a3 == b3 && a4 == b4 && a5 == b5)),
            (a3 == b3 || (a0 == b0 && a1 == b1 && a2 == b2 && a4 == b4 && a5 == b5)),
            (a4 == b4 || (a0 == b0 && a1 == b1 && a2 == b2 && a3 == b3 && a5 == b5)),
            (a5 == b5 || (a0 == b0 && a1 == b1 && a2 == b2 && a3 == b3 && a4 == b4)),
    ;
}

/// The first words of a generator are its words in order.
pub proof fn words_come_in_order(seed: u64, n: nat, i: int)
    requires
        0 <= i < n,
    ensures
        std_rng_words(seed, n).len() == n,
        std_rng_words(seed, n)[i] == std_rng_word(seed, i as nat),
{
}

/// A draw is what the upper 53 bits of a word count.
pub proof fn draws_are_the_upper_bits(word: u64)
    ensures
        uniform(word) * 2048 <= word < (uniform(word) + 1) * 2048,
        uniform(word) < 0x0020_0000_0000_0000,
{
}

} // verus!
