//! What a mounted filesystem answers to the kernel's requests.
//!
//! For each request there is the [`OpContext`] under which it goes through the
//! engine, and a body that produces its reply.

use vstd::prelude::*;

use crate::content::{stretch, ContentModel};
use crate::engine::OpContext;
use crate::errno::ENOENT;
use crate::error::FsError;
use crate::namespace::{
    collectors_hold_the_listing, DirCollector, DirEntry, FileAttrSpec, NamespaceModel,
};
use crate::op::FsOp;

pub mod opts;
pub mod reply_helpers;

pub use self::opts::{FuserMountOptions, MountAcl, MountOption, MountSettings};
pub use self::reply_helpers::{attr_from_spec, KernelAttr, Timestamp};

verus! {

/// Default time for which the kernel may cache attributes and entries: one second.
pub const DEFAULT_TTL_NANOS: u128 = 1_000_000_000;

/// The filesystem: a directory layout and its contents.
#[derive(Debug)]
pub struct FaultFs<N: NamespaceModel, C: ContentModel> {
    namespace: N,
    content: C,
    attr_ttl_nanos: u128,
    entry_ttl_nanos: u128,
}

/// The figures of a `statfs` reply.
#[derive(Copy, Clone, Debug, PartialEq, Eq, Structural)]
pub struct StatfsReply {
    /// Total number of blocks.
    pub blocks: u64,
    /// Free blocks.
    pub bfree: u64,
    /// Free blocks for unprivileged users.
    pub bavail: u64,
    /// Total number of inodes.
    pub files: u64,
    /// Free inodes.
    pub ffree: u64,
    /// Block size.
    pub bsize: u32,
    /// Longest name.
    pub namelen: u32,
    /// Fragment size.
    pub frsize: u32,
}

/// How many bytes a read of `size` bytes at `offset` yields of a file of
/// `file_len` bytes.
pub open spec fn readable(file_len: u64, offset: u64, size: u32) -> usize {
    if offset >= file_len {
        0
    } else if file_len - offset < size {
        (file_len - offset) as usize
    } else {
        size as usize
    }
}

impl<N: NamespaceModel, C: ContentModel> FaultFs<N, C> {
    /// The directory layout.
    pub closed spec fn tree(self) -> N {
        self.namespace
    }

    /// The contents of files.
    pub closed spec fn data(self) -> C {
        self.content
    }

    /// For how long the kernel may cache attributes and entries, in nanoseconds.
    pub closed spec fn ttls(self) -> (u128, u128) {
        (self.attr_ttl_nanos, self.entry_ttl_nanos)
    }

    /// Create a new `FaultFs` with default TTLs (1 second).
    pub fn new(namespace: N, content: C) -> (fs: Self)
        ensures
            fs.tree() == namespace,
            fs.data() == content,
            fs.ttls() == (DEFAULT_TTL_NANOS, DEFAULT_TTL_NANOS),
    {
        FaultFs {
            namespace,
            content,
            attr_ttl_nanos: DEFAULT_TTL_NANOS,
            entry_ttl_nanos: DEFAULT_TTL_NANOS,
        }
    }

    /// Override the attribute and entry TTLs, in nanoseconds.
    #[must_use]
    pub fn with_ttls(self, attr_ttl_nanos: u128, entry_ttl_nanos: u128) -> (fs: Self)
        ensures
            fs.tree() == self.tree(),
            fs.data() == self.data(),
            fs.ttls() == (attr_ttl_nanos, entry_ttl_nanos),
    {
        FaultFs {
            namespace: self.namespace,
            content: self.content,
            attr_ttl_nanos,
            entry_ttl_nanos,
        }
    }

    /// For how long the kernel may cache attributes, in nanoseconds.
    pub fn attr_ttl_nanos(&self) -> (nanos: u128)
        ensures
            nanos == self.ttls().0,
    {
        self.attr_ttl_nanos
    }

    /// For how long the kernel may cache entries, in nanoseconds.
    pub fn entry_ttl_nanos(&self) -> (nanos: u128)
        ensures
            nanos == self.ttls().1,
    {
        self.entry_ttl_nanos
    }

    /// Look up a name in a directory.
    pub fn lookup(&self, parent: u64, name: &str) -> (found: Result<FileAttrSpec, FsError>)
        ensures
            found == (match self.tree().child(parent, name@) {
                Some(ino) => match self.tree().attr_of(ino) {
                    Some(spec) => Ok(spec),
                    None => Err(FsError::Errno(ENOENT)),
                },
                None => Err(FsError::Errno(ENOENT)),
            }),
    {
        match self.namespace.lookup(parent, name) {
            Some(ino) => self.getattr(ino),
            None => Err(FsError::Errno(ENOENT)),
        }
    }

    /// The attributes of an inode.
    pub fn getattr(&self, ino: u64) -> (found: Result<FileAttrSpec, FsError>)
        ensures
            found == (match self.tree().attr_of(ino) {
                Some(spec) => Ok(spec),
                None => Err(FsError::Errno(ENOENT)),
            }),
    {
        match self.namespace.attr(ino) {
            Some(spec) => Ok(spec),
            None => Err(FsError::Errno(ENOENT)),
        }
    }

    /// Whether an inode exists. Permissions are not checked.
    pub fn access(&self, ino: u64) -> (found: Result<(), FsError>)
        ensures
            found == (match self.tree().attr_of(ino) {
                Some(_) => Ok(()),
                None => Err::<(), FsError>(FsError::Errno(ENOENT)),
            }),
    {
        match self.namespace.attr(ino) {
            Some(_) => Ok(()),
            None => Err(FsError::Errno(ENOENT)),
        }
    }

    /// The context of a read.
    ///
    /// Only the bytes that can be read are charged; the size tier goes by what
    /// was asked for.
    pub fn read_context(&self, ino: u64, offset: u64, size: u32) -> (ctx: OpContext)
        ensures
            ctx == (OpContext {
                op: FsOp::Read,
                ino,
                offset,
                len: readable(self.data().len_of(ino), offset, size),
                requested_len: size as usize,
            }),
    {
        let file_len: u64 = self.content.file_len(ino);
        let requested: usize = size as usize;
        let len: usize = if offset >= file_len {
            0
        } else if file_len - offset < size as u64 {
            (file_len - offset) as usize
        } else {
            requested
        };
        OpContext::data(FsOp::Read, ino, offset, len).with_requested_len(requested)
    }

    /// The bytes of a read whose context was made with [`FaultFs::read_context`].
    pub fn read(&self, ctx: &OpContext) -> (bytes: Result<Vec<u8>, FsError>)
        ensures
            bytes matches Ok(buffer) && buffer@ == stretch(
                &self.data(),
                ctx.ino,
                ctx.offset,
                ctx.len as nat,
            ),
    {
        let mut buffer: Vec<u8> = vec![0u8; ctx.len];
        self.content.read_at(ctx.ino, ctx.offset, buffer.as_mut_slice());
        Ok(buffer)
    }

    /// The context of a write.
    pub fn write_context(&self, ino: u64, offset: u64, data: &[u8]) -> (ctx: OpContext)
        ensures
            ctx == (OpContext {
                op: FsOp::Write,
                ino,
                offset,
                len: data@.len() as usize,
                requested_len: data@.len() as usize,
            }),
    {
        OpContext::data(FsOp::Write, ino, offset, data.len())
    }

    /// Write data, and say how many bytes were taken.
    pub fn write(&self, ino: u64, offset: u64, data: &[u8]) -> (written: Result<u32, FsError>)
        ensures
            written == (match self.data().answer_to(ino, offset, data@) {
                Ok(n) => Ok(n as u32),
                Err(error) => Err(error),
            }),
    {
        match self.content.write_at(ino, offset, data) {
            Ok(n) => Ok(n as u32),
            Err(error) => Err(error),
        }
    }

    /// The entries of a directory from the cookie `offset` on.
    pub fn readdir(&self, ino: u64, offset: u64) -> (listed: Result<Vec<DirEntry>, FsError>)
        ensures
            match self.tree().listing(ino, offset) {
                Some(entries) => listed matches Ok(found) && found@.map_values(
                    |entry: DirEntry| entry@,
                ) == entries,
                None => listed == Err::<Vec<DirEntry>, FsError>(self.tree().refusal(ino)),
            },
    {
        let mut collector = DirCollector::new();
        match self.namespace.readdir(ino, offset, &mut collector) {
            Ok(_) => {
                proof {
                    collectors_hold_the_listing(
                        collector,
                        self.tree().listing(ino, offset)->0,
                    );
                }
                Ok(collector.entries)
            },
            Err(error) => Err(error),
        }
    }

    /// The reply to `statfs`: ample space, blocks of 4 KiB.
    pub fn statfs(&self) -> (reply: StatfsReply)
        ensures
            reply == (StatfsReply {
                blocks: 1_000_000,
                bfree: 1_000_000,
                bavail: 1_000_000,
                files: 1_000_000,
                ffree: 1_000_000,
                bsize: 4096,
                namelen: 255,
                frsize: 4096,
            }),
    {
        StatfsReply {
            blocks: 1_000_000,
            bfree: 1_000_000,
            bavail: 1_000_000,
            files: 1_000_000,
            ffree: 1_000_000,
            bsize: 4096,
            namelen: 255,
            frsize: 4096,
        }
    }
}

/// A read never goes past the end of the file, and stops short only there.
pub proof fn reads_stop_at_the_end(file_len: u64, offset: u64, size: u32)
    ensures
        readable(file_len, offset, size) <= size,
        readable(file_len, offset, size) > 0 ==> offset + readable(file_len, offset, size)
            <= file_len,
        readable(file_len, offset, size) < size ==> offset + readable(file_len, offset, size)
            >= file_len,
{
}

} // verus!
