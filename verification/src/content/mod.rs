//! Synthetic data for virtual files.

use vstd::prelude::*;

use crate::error::FsError;

pub mod deterministic;

pub use self::deterministic::{synth_byte, DeterministicContent};

verus! {

/// A model of file contents.
///
/// It says how long a file is, yields the bytes of reads, and takes writes,
/// which it may discard. What it does is stated over three functions of
/// contracts; an implementation describes itself by giving its own.
pub trait ContentModel: Send + Sync + 'static {
    /// The logical length of the file at `ino`.
    open spec fn len_of(&self, ino: u64) -> u64 {
        0
    }

    /// The byte of the file at `ino` at position `offset`.
    open spec fn byte_at(&self, ino: u64, offset: u64) -> u8 {
        0
    }

    /// What a write of `data` is answered.
    open spec fn answer_to(&self, ino: u64, offset: u64, data: Seq<u8>) -> Result<usize, FsError> {
        Ok(data.len() as usize)
    }

    /// Return the logical length of the file at `ino`.
    fn file_len(&self, ino: u64) -> (len: u64)
        ensures
            len == self.len_of(ino),
    ;

    /// Fill `dst` with bytes starting at `offset` for the given `ino`.
    ///
    /// The caller is responsible for cutting `dst` to the readable range: every
    /// byte of it is filled, whatever the length of the file.
    fn read_at(&self, ino: u64, offset: u64, dst: &mut [u8])
        ensures
            final(dst)@ == Seq::new(
                old(dst)@.len(),
                |i: int| self.byte_at(ino, offset.wrapping_add(i as u64)),
            ),
    ;

    /// Write `data` at `offset` for the given `ino`.
    fn write_at(&self, ino: u64, offset: u64, data: &[u8]) -> (written: Result<usize, FsError>)
        ensures
            written == self.answer_to(ino, offset, data@),
    ;
}

/// The `len` bytes of the file at `ino` from `offset` on; positions wrap around
/// at 2^64.
pub open spec fn stretch<C: ContentModel + ?Sized>(
    content: &C,
    ino: u64,
    offset: u64,
    len: nat,
) -> Seq<u8> {
    Seq::new(len, |i: int| content.byte_at(ino, offset.wrapping_add(i as u64)))
}

/// Two reads that follow one another yield what one read of both ranges does.
pub proof fn reads_concatenate<C: ContentModel>(
    content: &C,
    ino: u64,
    offset: u64,
    first: u64,
    second: u64,
)
    requires
        first + second <= u64::MAX,
    ensures
        stretch(content, ino, offset, (first + second) as nat) == stretch(
            content,
            ino,
            offset,
            first as nat,
        ) + stretch(content, ino, offset.wrapping_add(first), second as nat),
{
    assert forall|i: int| 0 <= i < second implies offset.wrapping_add(first).wrapping_add(i as u64)
        == #[trigger] offset.wrapping_add((first + i) as u64) by {}
    assert(stretch(content, ino, offset, (first + second) as nat) =~= stretch(
        content,
        ino,
        offset,
        first as nat,
    ) + stretch(content, ino, offset.wrapping_add(first), second as nat));
}

/// A stretch of a file holds, at each place, the byte at the position that is as
/// far from the start; positions go on at zero after the last one.
pub proof fn stretches_hold_the_bytes<C: ContentModel>(
    content: &C,
    ino: u64,
    offset: u64,
    len: nat,
    i: int,
)
    requires
        0 <= i < len,
        i <= u64::MAX,
    ensures
        stretch(content, ino, offset, len).len() == len,
        stretch(content, ino, offset, len)[i] == content.byte_at(
            ino,
            ((offset + i) % 0x1_0000_0000_0000_0000) as u64,
        ),
{
}

} // verus!
