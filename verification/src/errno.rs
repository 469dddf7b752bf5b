//! Error numbers, as Linux numbers them.

use vstd::prelude::*;

verus! {

/// No such file or directory.
pub const ENOENT: i32 = 2;

/// Interrupted system call.
pub const EINTR: i32 = 4;

/// Input/output error.
pub const EIO: i32 = 5;

/// Resource temporarily unavailable.
pub const EAGAIN: i32 = 11;

/// Not a directory.
pub const ENOTDIR: i32 = 20;

/// Invalid argument.
pub const EINVAL: i32 = 22;

/// No space left on device.
pub const ENOSPC: i32 = 28;

/// Stale file handle.
pub const ESTALE: i32 = 116;

} // verus!
