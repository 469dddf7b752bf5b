//! The virtual filesystem tree: inodes and directory entries.

use vstd::prelude::*;

use crate::errno::ENOTDIR;
use crate::error::FsError;

pub mod flat;

pub use self::flat::FlatObjectNamespace;

verus! {

/// The root inode number used by FUSE.
pub const FUSE_ROOT_INO: u64 = 1;

/// `std`'s `SystemTime`: a point in time of the system clock. Nothing is
/// claimed of it; values are carried through.
#[verifier::external_type_specification]
#[verifier::external_body]
pub struct ExSystemTime(std::time::SystemTime);

/// Kind of file in the namespace.
#[derive(Copy, Clone, Debug, PartialEq, Eq, Structural)]
pub enum FileKind {
    Dir,
    File,
}

/// Full file attributes for a namespace entry.
#[derive(Copy, Clone, Debug)]
pub struct FileAttrSpec {
    /// Inode number.
    pub ino: u64,
    /// File size in bytes (0 for directories).
    pub size: u64,
    /// Whether this is a directory or regular file.
    pub kind: FileKind,
    /// Unix permission mode (e.g. 0o755 for dirs, 0o644 for files).
    pub mode: u32,
    /// Number of hard links.
    pub nlink: u32,
    /// Owner user ID.
    pub uid: u32,
    /// Owner group ID.
    pub gid: u32,
    /// Last modification time.
    pub mtime: std::time::SystemTime,
}

/// A directory entry.
#[derive(Debug, PartialEq, Eq)]
pub struct DirEntry {
    /// Inode number.
    pub ino: u64,
    /// The cookie with which a listing goes on after this entry.
    pub offset: u64,
    /// Whether this is a directory or regular file.
    pub kind: FileKind,
    /// The name.
    pub name: String,
}

/// What a directory entry says.
#[verifier::ext_equal]
pub struct EntryModel {
    /// Inode number.
    pub ino: u64,
    /// The cookie with which a listing goes on after this entry.
    pub offset: u64,
    /// Whether this is a directory or regular file.
    pub kind: FileKind,
    /// The name.
    pub name: Seq<char>,
}

impl View for DirEntry {
    type V = EntryModel;

    open spec fn view(&self) -> EntryModel {
        EntryModel { ino: self.ino, offset: self.offset, kind: self.kind, name: self.name@ }
    }
}

/// Push-based directory entry sink for `readdir`.
///
/// It receives entries one at a time and says after each whether it takes more.
/// An implementation describes itself by giving its own [`DirSink::log`].
pub trait DirSink {
    /// The entries received so far, each with the answer that was given to it.
    open spec fn log(&self) -> Seq<(EntryModel, bool)> {
        Seq::empty()
    }

    /// Push an entry into the sink.
    ///
    /// Returns `true` to continue iteration, `false` to stop.
    fn push(&mut self, ino: u64, offset: u64, kind: FileKind, name: &str) -> (more: bool)
        ensures
            final(self).log() == old(self).log().push(
                (EntryModel { ino, offset, kind, name: name@ }, more),
            ),
    ;
}

/// Whether `after` is `before` with the first `n` of `entries` pushed, all of
/// which were answered with `true`.
pub open spec fn took_all(
    before: Seq<(EntryModel, bool)>,
    after: Seq<(EntryModel, bool)>,
    entries: Seq<EntryModel>,
    n: int,
) -> bool {
    &&& 0 <= n <= entries.len()
    &&& after == before + Seq::new(n as nat, |i: int| (entries[i], true))
}

/// Whether `after` is `before` with `entries` pushed in order, up to the first
/// one that was answered with `false`, if there was one.
pub open spec fn delivered(
    before: Seq<(EntryModel, bool)>,
    after: Seq<(EntryModel, bool)>,
    entries: Seq<EntryModel>,
) -> bool {
    ||| took_all(before, after, entries, entries.len() as int)
    ||| exists|n: int|
        #![trigger entries[n]]
        0 <= n < entries.len() && after == (before + Seq::new(
            n as nat,
            |i: int| (entries[i], true),
        )).push((entries[n], false))
}

/// A model of the directory tree.
///
/// What it does is stated over functions of contracts; an implementation
/// describes itself by giving its own.
pub trait NamespaceModel: Send + Sync + 'static {
    /// The inode of the child of `parent` with the given name.
    open spec fn child(&self, parent: u64, name: Seq<char>) -> Option<u64> {
        None
    }

    /// The attributes of an inode, if it exists.
    open spec fn attr_of(&self, ino: u64) -> Option<FileAttrSpec> {
        None
    }

    /// The entries of a directory from the cookie `offset` on; none if the
    /// inode is no directory.
    open spec fn listing(&self, ino: u64, offset: u64) -> Option<Seq<EntryModel>> {
        None
    }

    /// The error with which listing an inode that is no directory fails.
    open spec fn refusal(&self, ino: u64) -> FsError {
        FsError::Errno(ENOTDIR)
    }

    /// Look up a child by name within a parent directory.
    ///
    /// Returns the child's inode number, or `None` if not found.
    fn lookup(&self, parent: u64, name: &str) -> (ino: Option<u64>)
        ensures
            ino == self.child(parent, name@),
    ;

    /// Get the full attributes for an inode.
    ///
    /// Returns `None` if the inode does not exist.
    fn attr(&self, ino: u64) -> (attr: Option<FileAttrSpec>)
        ensures
            attr == self.attr_of(ino),
    ;

    /// Read directory entries starting at `offset`, pushing them into `sink`
    /// until it takes no more.
    ///
    /// Returns an error if `ino` is not a directory.
    fn readdir<S: DirSink + ?Sized>(&self, ino: u64, offset: u64, sink: &mut S) -> (listed: Result<
        (),
        FsError,
    >) where Self: Sized
        ensures
            match self.listing(ino, offset) {
                Some(entries) => listed is Ok && delivered(
                    old(sink).log(),
                    final(sink).log(),
                    entries,
                ),
                None => {
                    &&& listed == Err::<(), FsError>(self.refusal(ino))
                    &&& final(sink).log() == old(sink).log()
                },
            },
    ;
}

/// A sink that takes everything.
#[derive(Debug)]
pub struct DirCollector {
    /// The entries received so far.
    pub entries: Vec<DirEntry>,
}

impl DirCollector {
    /// A sink that has received nothing yet.
    pub fn new() -> (collector: Self)
        ensures
            collector.entries@ == Seq::<DirEntry>::empty(),
            collector.log() == Seq::<(EntryModel, bool)>::empty(),
    {
        let collector = DirCollector { entries: Vec::new() };
        assert(collector.log() =~= Seq::<(EntryModel, bool)>::empty());
        collector
    }
}

impl DirSink for DirCollector {
    open spec fn log(&self) -> Seq<(EntryModel, bool)> {
        self.entries@.map_values(|entry: DirEntry| (entry@, true))
    }

    fn push(&mut self, ino: u64, offset: u64, kind: FileKind, name: &str) -> (more: bool)
        ensures
            more,
    {
        self.entries.push(DirEntry { ino, offset, kind, name: name.to_string() });
        assert(self.log() =~= old(self).log().push(
            (EntryModel { ino, offset, kind, name: name@ }, true),
        ));
        true
    }
}

/// A sink that takes everything has been given the whole listing.
pub proof fn collectors_hold_the_listing(collector: DirCollector, listing: Seq<EntryModel>)
    requires
        delivered(Seq::empty(), collector.log(), listing),
    ensures
        collector.entries@.map_values(|entry: DirEntry| entry@) == listing,
{
    let log = collector.log();
    let found = collector.entries@.map_values(|entry: DirEntry| entry@);
    if !took_all(Seq::empty(), log, listing, listing.len() as int) {
        let n = choose|n: int|
            #![trigger listing[n]]
            0 <= n < listing.len() && log == (Seq::<(EntryModel, bool)>::empty() + Seq::new(
                n as nat,
                |i: int| (listing[i], true),
            )).push((listing[n], false));
        assert(log[n] == (listing[n], false));
        assert(log[n].1);
    }
    assert forall|i: int| 0 <= i < listing.len() implies #[trigger] found[i] == listing[i] by {
        assert(log[i] == (listing[i], true));
        assert(log[i].0 == found[i]);
    }
    assert(found =~= listing);
}

/// A sink is given the entries in order, from the first one on, and no longer
/// than it takes them: all but the last were answered with `true`, and entries
/// are left over only if the last was answered with `false`.
pub proof fn deliveries_stop_where_the_sink_says(
    before: Seq<(EntryModel, bool)>,
    after: Seq<(EntryModel, bool)>,
    entries: Seq<EntryModel>,
)
    requires
        delivered(before, after, entries),
    ensures
        ({
            let given = after.len() - before.len();
            &&& 0 <= given <= entries.len()
            &&& forall|i: int| 0 <= i < before.len() ==> #[trigger] after[i] == before[i]
            &&& forall|i: int|
                0 <= i < given ==> (#[trigger] after[before.len() + i]).0 == entries[i]
            &&& forall|i: int| 0 <= i < given - 1 ==> (#[trigger] after[before.len() + i]).1
            &&& given < entries.len() ==> given > 0 && !after.last().1
        }),
{
    if !took_all(before, after, entries, entries.len() as int) {
        let n = choose|n: int|
            #![trigger entries[n]]
            0 <= n < entries.len() && after == (before + Seq::new(
                n as nat,
                |i: int| (entries[i], true),
            )).push((entries[n], false));
        assert(after.len() == before.len() + n + 1);
    }
}

} // verus!
