//! Attributes as the kernel wants them.

use std::time::SystemTime;
use vstd::prelude::*;

use crate::namespace::{FileAttrSpec, FileKind};

verus! {

/// A point in time.
#[derive(Copy, Clone, Debug)]
pub enum Timestamp {
    /// The start of the UNIX epoch.
    UnixEpoch,
    /// This time.
    At(SystemTime),
}

/// File attributes in the form of a kernel reply.
#[derive(Copy, Clone, Debug)]
pub struct KernelAttr {
    /// Inode number.
    pub ino: u64,
    /// File size in bytes.
    pub size: u64,
    /// File size in blocks of 512 bytes.
    pub blocks: u64,
    /// Last access time.
    pub atime: Timestamp,
    /// Last modification time.
    pub mtime: Timestamp,
    /// Last status change time.
    pub ctime: Timestamp,
    /// Creation time.
    pub crtime: Timestamp,
    /// Whether this is a directory or regular file.
    pub kind: FileKind,
    /// Permission bits.
    pub perm: u16,
    /// Number of hard links.
    pub nlink: u32,
    /// Owner user ID.
    pub uid: u32,
    /// Owner group ID.
    pub gid: u32,
    /// Device number.
    pub rdev: u32,
    /// Preferred block size.
    pub blksize: u32,
    /// Flags.
    pub flags: u32,
}

/// Convert the attributes of a namespace entry to the form of a kernel reply.
pub fn attr_from_spec(spec: &FileAttrSpec) -> (attr: KernelAttr)
    ensures
        attr.ino == spec.ino,
        attr.size == spec.size,
        attr.blocks * 512 >= spec.size,
        (attr.blocks - 1) * 512 < spec.size,
        attr.atime == Timestamp::At(spec.mtime),
        attr.mtime == Timestamp::At(spec.mtime),
        attr.ctime == Timestamp::At(spec.mtime),
        attr.crtime == Timestamp::UnixEpoch,
        attr.kind == spec.kind,
        attr.perm == spec.mode as u16,
        attr.nlink == spec.nlink,
        attr.uid == spec.uid,
        attr.gid == spec.gid,
        attr.rdev == 0,
        attr.blksize == 4096,
        attr.flags == 0,
{
    let blocks: u64 = if spec.size % 512 == 0 {
        spec.size / 512
    } else {
        spec.size / 512 + 1
    };
    KernelAttr {
        ino: spec.ino,
        size: spec.size,
        blocks,
        atime: Timestamp::At(spec.mtime),
        mtime: Timestamp::At(spec.mtime),
        ctime: Timestamp::At(spec.mtime),
        crtime: Timestamp::UnixEpoch,
        kind: spec.kind,
        perm: spec.mode as u16,
        nlink: spec.nlink,
        uid: spec.uid,
        gid: spec.gid,
        rdev: 0,
        blksize: 4096,
        flags: 0,
    }
}

} // verus!
