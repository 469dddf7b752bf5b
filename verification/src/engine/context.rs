//! Per-op context handed to the engine.

use vstd::prelude::*;

use crate::op::FsOp;

verus! {

/// Describes a single operation about to be executed.
///
/// Two byte counts are tracked separately:
///
/// - [`OpContext::len`] is the *effective* byte count charged against
///   bandwidth, mixed into the sampler key, and reported in events. It reflects
///   the bytes that will actually be moved: a read near the end of a file is
///   clamped to the readable tail.
/// - [`OpContext::requested_len`] is the caller's *originally requested* byte
///   count, used only to choose the size tier, so that the choice follows the
///   application's intent rather than the geometry of the file.
#[derive(Copy, Clone, Debug, PartialEq, Eq, Structural)]
pub struct OpContext {
    /// The operation kind.
    pub op: FsOp,
    /// Target inode.
    pub ino: u64,
    /// Byte offset (0 for metadata ops).
    pub offset: u64,
    /// Effective byte count (0 for metadata ops).
    pub len: usize,
    /// Requested byte count (0 for metadata ops).
    pub requested_len: usize,
}

impl OpContext {
    /// Convenience constructor for metadata ops with no offset/len.
    pub fn metadata(op: FsOp, ino: u64) -> (ctx: Self)
        ensures
            ctx == (OpContext { op, ino, offset: 0, len: 0, requested_len: 0 }),
    {
        OpContext { op, ino, offset: 0, len: 0, requested_len: 0 }
    }

    /// Convenience constructor for data ops.
    ///
    /// Sets both [`OpContext::len`] and [`OpContext::requested_len`] to `len`.
    pub fn data(op: FsOp, ino: u64, offset: u64, len: usize) -> (ctx: Self)
        ensures
            ctx == (OpContext { op, ino, offset, len, requested_len: len }),
    {
        OpContext { op, ino, offset, len, requested_len: len }
    }

    /// Override the caller's originally requested byte count.
    #[must_use]
    pub fn with_requested_len(self, requested_len: usize) -> (ctx: Self)
        ensures
            ctx == (OpContext { requested_len, ..self }),
    {
        OpContext { requested_len, ..self }
    }
}

} // verus!
