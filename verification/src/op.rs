//! Filesystem operation kinds.

use vstd::prelude::*;

verus! {

/// A filesystem operation kind that the simulator can intercept.
#[derive(Copy, Clone, Debug, PartialEq, Eq, Hash, Structural)]
pub enum FsOp {
    Lookup,
    GetAttr,
    Open,
    Read,
    Write,
    Flush,
    Release,
    Fsync,
    Readdir,
    Statfs,
    Access,
}

/// How many operation kinds there are.
pub const OP_COUNT: usize = 11;

impl FsOp {
    /// All operation kinds, in the order in which reports list them.
    pub const ALL: [FsOp; 11] = [
        FsOp::Lookup,
        FsOp::GetAttr,
        FsOp::Open,
        FsOp::Read,
        FsOp::Write,
        FsOp::Flush,
        FsOp::Release,
        FsOp::Fsync,
        FsOp::Readdir,
        FsOp::Statfs,
        FsOp::Access,
    ];

    /// The position of this kind in [`FsOp::ALL`].
    pub open spec fn position(self) -> int {
        match self {
            FsOp::Lookup => 0,
            FsOp::GetAttr => 1,
            FsOp::Open => 2,
            FsOp::Read => 3,
            FsOp::Write => 4,
            FsOp::Flush => 5,
            FsOp::Release => 6,
            FsOp::Fsync => 7,
            FsOp::Readdir => 8,
            FsOp::Statfs => 9,
            FsOp::Access => 10,
        }
    }

    /// The kind at position `i` of [`FsOp::ALL`].
    pub open spec fn at(i: int) -> FsOp {
        FsOp::ALL@[i]
    }

    /// The name of this kind in configuration files and event logs.
    pub open spec fn name(self) -> Seq<char> {
        match self {
            FsOp::Lookup => "lookup"@,
            FsOp::GetAttr => "getattr"@,
            FsOp::Open => "open"@,
            FsOp::Read => "read"@,
            FsOp::Write => "write"@,
            FsOp::Flush => "flush"@,
            FsOp::Release => "release"@,
            FsOp::Fsync => "fsync"@,
            FsOp::Readdir => "readdir"@,
            FsOp::Statfs => "statfs"@,
            FsOp::Access => "access"@,
        }
    }

    /// Whether this kind moves file data.
    pub open spec fn moves_data(self) -> bool {
        self == FsOp::Read || self == FsOp::Write
    }

    /// Return the string representation of this operation.
    pub fn as_str(self) -> (name: &'static str)
        ensures
            name@ == self.name(),
            name@ == (match self {
                FsOp::Lookup => "lookup"@,
                FsOp::GetAttr => "getattr"@,
                FsOp::Open => "open"@,
                FsOp::Read => "read"@,
                FsOp::Write => "write"@,
                FsOp::Flush => "flush"@,
                FsOp::Release => "release"@,
                FsOp::Fsync => "fsync"@,
                FsOp::Readdir => "readdir"@,
                FsOp::Statfs => "statfs"@,
                FsOp::Access => "access"@,
            }),
    {
        match self {
            FsOp::Lookup => "lookup",
            FsOp::GetAttr => "getattr",
            FsOp::Open => "open",
            FsOp::Read => "read",
            FsOp::Write => "write",
            FsOp::Flush => "flush",
            FsOp::Release => "release",
            FsOp::Fsync => "fsync",
            FsOp::Readdir => "readdir",
            FsOp::Statfs => "statfs",
            FsOp::Access => "access",
        }
    }

    /// The position of this operation in [`FsOp::ALL`].
    pub fn index(self) -> (i: usize)
        ensures
            i == self.position(),
            i < OP_COUNT,
            FsOp::at(i as int) == self,
    {
        match self {
            FsOp::Lookup => 0,
            FsOp::GetAttr => 1,
            FsOp::Open => 2,
            FsOp::Read => 3,
            FsOp::Write => 4,
            FsOp::Flush => 5,
            FsOp::Release => 6,
            FsOp::Fsync => 7,
            FsOp::Readdir => 8,
            FsOp::Statfs => 9,
            FsOp::Access => 10,
        }
    }

    /// Whether this operation moves file data (`Read` or `Write`).
    pub fn is_data(self) -> (data: bool)
        ensures
            data == self.moves_data(),
    {
        match self {
            FsOp::Read | FsOp::Write => true,
            _ => false,
        }
    }
}

/// Every operation kind stands in [`FsOp::ALL`], at its position and nowhere else.
pub proof fn all_lists_every_op_once(op: FsOp, i: int)
    requires
        0 <= i < OP_COUNT,
    ensures
        0 <= op.position() < OP_COUNT,
        FsOp::at(op.position()) == op,
        FsOp::at(i).position() == i,
        FsOp::at(i) == op <==> i == op.position(),
{
}

/// No two operation kinds share a name.
pub proof fn op_names_are_distinct(a: FsOp, b: FsOp)
    ensures
        a.name() == b.name() <==> a == b,
{
    reveal_strlit("lookup");
    reveal_strlit("getattr");
    reveal_strlit("open");
    reveal_strlit("read");
    reveal_strlit("write");
    reveal_strlit("flush");
    reveal_strlit("release");
    reveal_strlit("fsync");
    reveal_strlit("readdir");
    reveal_strlit("statfs");
    reveal_strlit("access");
    assert("lookup"@[0] == 'l' && "lookup"@.len() == 6);
    assert("getattr"@[0] == 'g' && "getattr"@.len() == 7);
    assert("open"@[0] == 'o' && "open"@.len() == 4);
    assert("read"@[0] == 'r' && "read"@.len() == 4);
    assert("write"@[0] == 'w' && "write"@.len() == 5);
    assert("flush"@[0] == 'f' && "flush"@[1] == 'l' && "flush"@.len() == 5);
    assert("release"@[0] == 'r' && "release"@[2] == 'l' && "release"@.len() == 7);
    assert("fsync"@[0] == 'f' && "fsync"@[1] == 's' && "fsync"@.len() == 5);
    assert("readdir"@[0] == 'r' && "readdir"@[2] == 'a' && "readdir"@.len() == 7);
    assert("statfs"@[0] == 's' && "statfs"@.len() == 6);
    assert("access"@[0] == 'a' && "access"@.len() == 6);
}

/// Reads and writes move data, and nothing else does.
pub proof fn only_reads_and_writes_move_data(op: FsOp)
    ensures
        op.moves_data() <==> op is Read || op is Write,
{
}

} // verus!
