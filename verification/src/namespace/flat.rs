//! Flat layout: all files in a single directory with zero-padded decimal names.

use vstd::arithmetic::power::pow;
use vstd::prelude::*;

use crate::config::FilesConfig;
use crate::errno::ENOTDIR;
use crate::error::FsError;
use crate::namespace::{
    delivered, took_all, DirSink, EntryModel, FileAttrSpec, FileKind, NamespaceModel,
    FUSE_ROOT_INO,
};
use crate::text::{
    decimal, is_digit, lemma_digits_read_back, lemma_padded_is_digits, lemma_value_written_back,
    padded_decimal, push_decimal, push_padded, read_digits, same_text, value_of,
};

verus! {

/// One more than the largest number of files that names of six digits allow for.
pub const MAX_FILES: u64 = 1_000_000;

/// A flat namespace with `inode_count` files in a single `objects/` directory.
///
/// Layout:
/// - `/` (ino 1): contains only `objects/`.
/// - `/objects` (ino 2): contains `000000`..`(inode_count-1)`.
/// - `/objects/<NNNNNN>` (ino 100 + n): synthetic files of `file_size_bytes`.
///
/// An `inode_count` above 999_999 is clamped to 999_999.
#[derive(Copy, Clone, Debug)]
pub struct FlatObjectNamespace {
    inode_count: u64,
    file_size_bytes: u64,
    uid: u32,
    gid: u32,
    ctime: std::time::SystemTime,
}

/// The number of files that a configured count gives.
pub open spec fn clamped_count(configured: u64) -> u64 {
    if configured < MAX_FILES {
        configured
    } else {
        (MAX_FILES - 1) as u64
    }
}

/// Whether a name consists of six decimal digits.
pub open spec fn six_digits(name: Seq<char>) -> bool {
    name.len() == 6 && forall|i: int| 0 <= i < 6 ==> is_digit(#[trigger] name[i])
}

impl FlatObjectNamespace {
    /// Inode of the top-level `objects/` directory.
    pub const OBJECTS_INO: u64 = 2;

    /// Base inode for object files. File index `n` maps to `FIRST_FILE_INO + n`.
    pub const FIRST_FILE_INO: u64 = 100;

    /// The number of files.
    pub closed spec fn count(self) -> u64 {
        self.inode_count
    }

    /// The size of every file.
    pub closed spec fn file_size(self) -> u64 {
        self.file_size_bytes
    }

    /// The owner of everything.
    pub closed spec fn owner(self) -> (u32, u32) {
        (self.uid, self.gid)
    }

    /// The time of creation.
    pub closed spec fn created(self) -> std::time::SystemTime {
        self.ctime
    }

    /// Whether every file has a name of six digits.
    pub open spec fn nameable(self) -> bool {
        self.count() < MAX_FILES
    }

    /// The index of the file with the given inode.
    pub open spec fn index_of(self, ino: u64) -> Option<u64> {
        if Self::FIRST_FILE_INO <= ino < Self::FIRST_FILE_INO + self.count() {
            Some((ino - Self::FIRST_FILE_INO) as u64)
        } else {
            None
        }
    }

    /// The index of the file with the given name.
    pub open spec fn index_named(self, name: Seq<char>) -> Option<u64> {
        if six_digits(name) && value_of(name) < self.count() {
            Some(value_of(name) as u64)
        } else {
            None
        }
    }

    /// The attributes of the directory `ino`.
    pub open spec fn dir_attr_of(self, ino: u64) -> FileAttrSpec {
        FileAttrSpec {
            ino,
            size: 0,
            kind: FileKind::Dir,
            mode: 0o755,
            nlink: 2,
            uid: self.owner().0,
            gid: self.owner().1,
            mtime: self.created(),
        }
    }

    /// The attributes of the file `ino`.
    pub open spec fn file_attr_of(self, ino: u64) -> FileAttrSpec {
        FileAttrSpec {
            ino,
            size: self.file_size(),
            kind: FileKind::File,
            mode: 0o644,
            nlink: 1,
            uid: self.owner().0,
            gid: self.owner().1,
            mtime: self.created(),
        }
    }

    /// The directory entry of the file with index `n`.
    pub open spec fn file_entry(n: int) -> EntryModel {
        EntryModel {
            ino: (Self::FIRST_FILE_INO + n) as u64,
            offset: (n + 3) as u64,
            kind: FileKind::File,
            name: padded_decimal(n as nat, 6),
        }
    }

    /// All entries of the root directory.
    pub open spec fn root_entries() -> Seq<EntryModel> {
        seq![
            EntryModel { ino: FUSE_ROOT_INO, offset: 1, kind: FileKind::Dir, name: "."@ },
            EntryModel { ino: FUSE_ROOT_INO, offset: 2, kind: FileKind::Dir, name: ".."@ },
            EntryModel {
                ino: Self::OBJECTS_INO,
                offset: 3,
                kind: FileKind::Dir,
                name: "objects"@,
            },
        ]
    }

    /// All entries of the `objects/` directory.
    pub open spec fn object_entries(self) -> Seq<EntryModel> {
        Seq::new(
            (self.count() + 2) as nat,
            |i: int|
                if i == 0 {
                    EntryModel {
                        ino: Self::OBJECTS_INO,
                        offset: 1,
                        kind: FileKind::Dir,
                        name: "."@,
                    }
                } else if i == 1 {
                    EntryModel {
                        ino: FUSE_ROOT_INO,
                        offset: 2,
                        kind: FileKind::Dir,
                        name: ".."@,
                    }
                } else {
                    Self::file_entry(i - 2)
                },
        )
    }

    /// All entries of a directory; none if the inode is no directory.
    pub open spec fn entries_of(self, ino: u64) -> Option<Seq<EntryModel>> {
        if ino == FUSE_ROOT_INO {
            Some(Self::root_entries())
        } else if ino == Self::OBJECTS_INO {
            Some(self.object_entries())
        } else {
            None
        }
    }

    /// Create a new flat namespace from configuration, owned by `uid` and `gid`
    /// and created at `ctime`.
    pub fn new(
        config: &FilesConfig,
        uid: u32,
        gid: u32,
        ctime: std::time::SystemTime,
    ) -> (namespace: Self)
        ensures
            namespace.count() == clamped_count(config.inode_count),
            config.inode_count <= 999_999 ==> namespace.count() == config.inode_count,
            config.inode_count > 999_999 ==> namespace.count() == 999_999,
            namespace.file_size() == config.file_size_bytes,
            namespace.owner() == (uid, gid),
            namespace.created() == ctime,
            namespace.nameable(),
    {
        let inode_count: u64 = if config.inode_count < MAX_FILES {
            config.inode_count
        } else {
            MAX_FILES - 1
        };
        FlatObjectNamespace {
            inode_count,
            file_size_bytes: config.file_size_bytes,
            uid,
            gid,
            ctime,
        }
    }

    /// What to tell the user where the configured number of files is clamped.
    pub fn clamp_warning(config: &FilesConfig) -> (warning: Option<String>)
        ensures
            match warning {
                Some(text) => {
                    &&& config.inode_count >= MAX_FILES
                    &&& text@ == "fusecraft: inode_count ("@ + decimal(config.inode_count as nat)
                        + ") exceeds maximum "@ + decimal(999_999) + "; clamping to "@ + decimal(
                        999_999,
                    )
                },
                None => config.inode_count < MAX_FILES,
            },
    {
        if config.inode_count < MAX_FILES {
            return None;
        }
        let mut text = String::new();
        text.append("fusecraft: inode_count (");
        push_decimal(&mut text, config.inode_count);
        text.append(") exceeds maximum ");
        push_decimal(&mut text, MAX_FILES - 1);
        text.append("; clamping to ");
        push_decimal(&mut text, MAX_FILES - 1);
        Some(text)
    }

    /// Total number of object files in the namespace, all of which have a name
    /// of six digits.
    pub fn inode_count(&self) -> (count: u64)
        ensures
            count == self.count(),
            self.nameable(),
    {
        proof {
            use_type_invariant(self);
        }
        self.inode_count
    }

    /// File size configured for all synthetic files.
    pub fn file_size_bytes(&self) -> (bytes: u64)
        ensures
            bytes == self.file_size(),
    {
        self.file_size_bytes
    }

    /// Convert a file index `n` to its 6-digit zero-padded name.
    pub fn index_to_name(n: u64) -> (name: String)
        ensures
            name@ == padded_decimal(n as nat, 6),
    {
        let mut name = String::new();
        push_padded(&mut name, n, 6);
        assert(name@ =~= padded_decimal(n as nat, 6));
        name
    }

    /// Convert an inode to a file index, if it's a valid file inode.
    pub fn ino_to_index(&self, ino: u64) -> (index: Option<u64>)
        ensures
            index == self.index_of(ino),
    {
        if ino < Self::FIRST_FILE_INO {
            return None;
        }
        let n: u64 = ino - Self::FIRST_FILE_INO;
        if n < self.inode_count {
            Some(n)
        } else {
            None
        }
    }

    /// Parse a 6-digit zero-padded decimal name to its index.
    ///
    /// Returns `None` if the name is not exactly 6 digits or the index is out
    /// of range.
    fn parse_name(&self, name: &str) -> (index: Option<u64>)
        ensures
            index == self.index_named(name@),
    {
        if name.unicode_len() != 6 {
            return None;
        }
        match read_digits(name) {
            Some(n) => if n < self.inode_count {
                Some(n)
            } else {
                None
            },
            None => None,
        }
    }

    fn dir_attr(&self, ino: u64) -> (attr: FileAttrSpec)
        ensures
            attr == self.dir_attr_of(ino),
    {
        FileAttrSpec {
            ino,
            size: 0,
            kind: FileKind::Dir,
            mode: 0o755,
            nlink: 2,
            uid: self.uid,
            gid: self.gid,
            mtime: self.ctime,
        }
    }

    fn file_attr(&self, ino: u64) -> (attr: FileAttrSpec)
        ensures
            attr == self.file_attr_of(ino),
    {
        FileAttrSpec {
            ino,
            size: self.file_size_bytes,
            kind: FileKind::File,
            mode: 0o644,
            nlink: 1,
            uid: self.uid,
            gid: self.gid,
            mtime: self.ctime,
        }
    }
}

impl FlatObjectNamespace {
    /// Push the entries of the root directory after the cookie `offset`.
    fn list_root<S: DirSink + ?Sized>(&self, offset: u64, sink: &mut S)
        ensures
            delivered(old(sink).log(), final(sink).log(), rest_of(Self::root_entries(), offset)),
    {
        let ghost rest = rest_of(Self::root_entries(), offset);
        let ghost before = sink.log();
        let entries: [(u64, u64, FileKind, &str); 3] = [
            (1, FUSE_ROOT_INO, FileKind::Dir, "."),
            (2, FUSE_ROOT_INO, FileKind::Dir, ".."),
            (3, Self::OBJECTS_INO, FileKind::Dir, "objects"),
        ];
        proof {
            lemma_nothing_taken(before, rest);
        }
        let mut i: usize = 0;
        while i < 3
            invariant
                i <= 3,
                before == old(sink).log(),
                rest == rest_of(Self::root_entries(), offset),
                forall|j: int|
                    0 <= j < 3 ==> {
                        let entry = #[trigger] entries@[j];
                        &&& entry.0 == j + 1
                        &&& Self::root_entries()[j] == EntryModel {
                            ino: entry.1,
                            offset: entry.0,
                            kind: entry.2,
                            name: entry.3@,
                        }
                    },
                took_all(
                    before,
                    sink.log(),
                    rest,
                    if i <= offset {
                        0
                    } else {
                        i - offset
                    },
                ),
            decreases 3 - i,
        {
            let (cookie, child_ino, kind, name) = entries[i];
            assert(entries@[i as int].0 == i + 1);
            if cookie > offset {
                let ghost now = sink.log();
                let more = sink.push(child_ino, cookie, kind, name);
                proof {
                    lemma_one_more_taken(before, now, sink.log(), rest, i - offset, more);
                }
                if !more {
                    return;
                }
            }
            i = i + 1;
        }
    }

    /// Push the entries of the `objects/` directory after the cookie `offset`.
    fn list_objects<S: DirSink + ?Sized>(&self, offset: u64, sink: &mut S)
        ensures
            delivered(old(sink).log(), final(sink).log(), rest_of(self.object_entries(), offset)),
    {
        proof {
            use_type_invariant(self);
        }
        let ghost rest = rest_of(self.object_entries(), offset);
        let ghost before = sink.log();
        proof {
            lemma_nothing_taken(before, rest);
        }
        if 1 > offset {
            let ghost now = sink.log();
            let more = sink.push(Self::OBJECTS_INO, 1, FileKind::Dir, ".");
            proof {
                lemma_one_more_taken(before, now, sink.log(), rest, 0, more);
            }
            if !more {
                return;
            }
        }
        if 2 > offset {
            let ghost now = sink.log();
            let more = sink.push(FUSE_ROOT_INO, 2, FileKind::Dir, "..");
            proof {
                lemma_one_more_taken(before, now, sink.log(), rest, 1 - offset, more);
            }
            if !more {
                return;
            }
        }
        // Files start at cookie 3.
        let mut n: u64 = offset.saturating_sub(2);
        while n < self.inode_count
            invariant
                self.nameable(),
                n + 2 >= offset,
                n <= self.count() || n + 2 == offset,
                before == old(sink).log(),
                rest == rest_of(self.object_entries(), offset),
                took_all(
                    before,
                    sink.log(),
                    rest,
                    if n <= self.count() {
                        n + 2 - offset
                    } else {
                        0
                    },
                ),
            decreases self.inode_count - n,
        {
            let name = Self::index_to_name(n);
            let ghost now = sink.log();
            let more = sink.push(Self::FIRST_FILE_INO + n, n + 3, FileKind::File, name.as_str());
            proof {
                assert(rest[n + 2 - offset] == Self::file_entry(n as int));
                lemma_one_more_taken(before, now, sink.log(), rest, n + 2 - offset, more);
            }
            if !more {
                return;
            }
            n = n + 1;
        }
    }

    #[verifier::type_invariant]
    spec fn names_suffice(self) -> bool {
        self.nameable()
    }
}

/// Nothing is taken at the start.
proof fn lemma_nothing_taken(before: Seq<(EntryModel, bool)>, entries: Seq<EntryModel>)
    ensures
        took_all(before, before, entries, 0),
{
    assert(before =~= before + Seq::new(0, |i: int| (entries[i], true)));
}

/// Pushing the next entry goes on or ends the delivery.
proof fn lemma_one_more_taken(
    before: Seq<(EntryModel, bool)>,
    now: Seq<(EntryModel, bool)>,
    after: Seq<(EntryModel, bool)>,
    entries: Seq<EntryModel>,
    n: int,
    more: bool,
)
    requires
        took_all(before, now, entries, n),
        n < entries.len(),
        after == now.push((entries[n], more)),
    ensures
        more ==> took_all(before, after, entries, n + 1),
        !more ==> delivered(before, after, entries),
{
    if more {
        assert(after =~= before + Seq::new((n + 1) as nat, |i: int| (entries[i], true)));
    }
}

/// The entries that are left after the first `offset`.
pub open spec fn rest_of(entries: Seq<EntryModel>, offset: u64) -> Seq<EntryModel> {
    if offset < entries.len() {
        entries.skip(offset as int)
    } else {
        Seq::empty()
    }
}

impl NamespaceModel for FlatObjectNamespace {
    open spec fn child(&self, parent: u64, name: Seq<char>) -> Option<u64> {
        if parent == FUSE_ROOT_INO {
            if name == "objects"@ {
                Some(Self::OBJECTS_INO)
            } else {
                None
            }
        } else if parent == Self::OBJECTS_INO {
            match self.index_named(name) {
                Some(n) => Some((Self::FIRST_FILE_INO + n) as u64),
                None => None,
            }
        } else {
            None
        }
    }

    open spec fn attr_of(&self, ino: u64) -> Option<FileAttrSpec> {
        if ino == FUSE_ROOT_INO || ino == Self::OBJECTS_INO {
            Some(self.dir_attr_of(ino))
        } else if self.index_of(ino) is Some {
            Some(self.file_attr_of(ino))
        } else {
            None
        }
    }

    open spec fn listing(&self, ino: u64, offset: u64) -> Option<Seq<EntryModel>> {
        match self.entries_of(ino) {
            Some(entries) => Some(rest_of(entries, offset)),
            None => None,
        }
    }

    open spec fn refusal(&self, ino: u64) -> FsError {
        FsError::Errno(ENOTDIR)
    }

    fn lookup(&self, parent: u64, name: &str) -> (ino: Option<u64>) {
        if parent == FUSE_ROOT_INO {
            if same_text(name, "objects") {
                Some(Self::OBJECTS_INO)
            } else {
                None
            }
        } else if parent == Self::OBJECTS_INO {
            match self.parse_name(name) {
                Some(n) => {
                    proof {
                        lemma_six_digits_bound(name@);
                    }
                    Some(Self::FIRST_FILE_INO + n)
                },
                None => None,
            }
        } else {
            None
        }
    }

    fn attr(&self, ino: u64) -> (attr: Option<FileAttrSpec>) {
        if ino == FUSE_ROOT_INO || ino == Self::OBJECTS_INO {
            Some(self.dir_attr(ino))
        } else if self.ino_to_index(ino).is_some() {
            Some(self.file_attr(ino))
        } else {
            None
        }
    }

    fn readdir<S: DirSink + ?Sized>(&self, ino: u64, offset: u64, sink: &mut S) -> (listed: Result<
        (),
        FsError,
    >)
        ensures
            self.listing(ino, offset) is None ==> listed == Err::<(), FsError>(
                FsError::Errno(ENOTDIR),
            ),
    {
        proof {
            use_type_invariant(self);
        }
        if ino == FUSE_ROOT_INO {
            self.list_root(offset, sink);
            Ok(())
        } else if ino == Self::OBJECTS_INO {
            self.list_objects(offset, sink);
            Ok(())
        } else {
            Err(FsError::Errno(ENOTDIR))
        }
    }
}

/// Names of six digits stand for numbers below a million.
proof fn lemma_six_digits_bound(name: Seq<char>)
    requires
        six_digits(name),
    ensures
        value_of(name) < MAX_FILES,
{
    lemma_value_written_back(name);
    assert(pow(10, 6) == 1_000_000) by {
        reveal_with_fuel(pow, 7);
    }
}

// --- Laws ---

/// Looking up the name of a file finds that file.
pub proof fn lookup_finds_every_file(namespace: FlatObjectNamespace, n: u64)
    requires
        namespace.nameable(),
        n < namespace.count(),
    ensures
        namespace.child(FlatObjectNamespace::OBJECTS_INO, padded_decimal(n as nat, 6)) == Some(
            (FlatObjectNamespace::FIRST_FILE_INO + n) as u64,
        ),
{
    assert(pow(10, 6) == 1_000_000) by {
        reveal_with_fuel(pow, 7);
    }
    lemma_padded_is_digits(n as nat, 6);
    lemma_digits_read_back(n as nat, 6);
}

/// Only the names of files are found in `objects/`: each found inode is that of
/// a file, looked up by its own name.
pub proof fn lookup_finds_nothing_else(namespace: FlatObjectNamespace, name: Seq<char>)
    requires
        namespace.nameable(),
    ensures
        namespace.child(FlatObjectNamespace::OBJECTS_INO, name) matches Some(ino) ==> {
            &&& namespace.index_of(ino) matches Some(n)
            &&& name == padded_decimal(n as nat, 6)
        },
{
    if let Some(ino) = namespace.child(FlatObjectNamespace::OBJECTS_INO, name) {
        assert(pow(10, 6) == 1_000_000) by {
            reveal_with_fuel(pow, 7);
        }
        lemma_value_written_back(name);
        lemma_padded_is_digits(value_of(name), 6);
    }
}

/// Whatever a lookup finds has attributes, under the inode that was found.
pub proof fn found_inodes_have_attributes(
    namespace: FlatObjectNamespace,
    parent: u64,
    name: Seq<char>,
)
    requires
        namespace.nameable(),
    ensures
        namespace.child(parent, name) matches Some(ino) ==> {
            &&& namespace.attr_of(ino) matches Some(attr)
            &&& attr.ino == ino
        },
{
}

/// An inode can be listed exactly if its attributes say that it is a directory.
pub proof fn directories_are_listable(namespace: FlatObjectNamespace, ino: u64)
    ensures
        namespace.listing(ino, 0) is Some <==> {
            &&& namespace.attr_of(ino) matches Some(attr)
            &&& attr.kind == FileKind::Dir
        },
{
}

/// Every listed entry other than `.` and `..` is what a lookup of its name
/// finds, and is of the kind that its attributes say.
pub proof fn listings_agree_with_lookups(namespace: FlatObjectNamespace, ino: u64, i: int)
    requires
        namespace.nameable(),
        namespace.entries_of(ino) is Some,
        2 <= i < namespace.entries_of(ino)->0.len(),
    ensures
        ({
            let entry = namespace.entries_of(ino)->0[i];
            &&& namespace.child(ino, entry.name) == Some(entry.ino)
            &&& namespace.attr_of(entry.ino) matches Some(attr)
            &&& attr.kind == entry.kind
        }),
{
    if ino == FlatObjectNamespace::OBJECTS_INO {
        lookup_finds_every_file(namespace, (i - 2) as u64);
    }
}

/// A listing goes on where it left off: resuming at the cookie of an entry
/// yields exactly the entries after it.
pub proof fn listings_resume_after_a_cookie(namespace: FlatObjectNamespace, ino: u64, i: int)
    requires
        namespace.nameable(),
        namespace.entries_of(ino) is Some,
        0 <= i < namespace.entries_of(ino)->0.len(),
    ensures
        ({
            let entries = namespace.entries_of(ino)->0;
            &&& namespace.listing(ino, 0) == Some(entries)
            &&& namespace.listing(ino, entries[i].offset) == Some(entries.skip(i + 1))
        }),
{
    let entries = namespace.entries_of(ino)->0;
    assert(entries.skip(0) =~= entries);
    assert(entries.skip(entries.len() as int) =~= Seq::<EntryModel>::empty());
}

/// No two files share an inode or a name, and none has that of a directory.
pub proof fn files_are_told_apart(namespace: FlatObjectNamespace, m: u64, n: u64)
    requires
        namespace.nameable(),
        m < namespace.count(),
        n < namespace.count(),
    ensures
        FlatObjectNamespace::file_entry(m as int).ino == FlatObjectNamespace::file_entry(
            n as int,
        ).ino <==> m == n,
        FlatObjectNamespace::file_entry(m as int).name == FlatObjectNamespace::file_entry(
            n as int,
        ).name <==> m == n,
        FlatObjectNamespace::file_entry(m as int).ino != FUSE_ROOT_INO,
        FlatObjectNamespace::file_entry(m as int).ino != FlatObjectNamespace::OBJECTS_INO,
{
    lookup_finds_every_file(namespace, m);
    lookup_finds_every_file(namespace, n);
}

/// The listing of `objects/` has an entry for the directory, for its parent, and
/// for each of its files, with the inode and the name by which a lookup finds
/// it; and it has no others.
pub proof fn every_file_is_listed(namespace: FlatObjectNamespace, n: u64)
    requires
        namespace.nameable(),
    ensures
        namespace.listing(2, 0) matches Some(entries) && {
            &&& entries.len() == namespace.count() + 2
            &&& entries[0] == (EntryModel { ino: 2, offset: 1, kind: FileKind::Dir, name: "."@ })
            &&& entries[1] == (EntryModel { ino: 1, offset: 2, kind: FileKind::Dir, name: ".."@ })
            &&& n < namespace.count() ==> {
                let entry = entries[n + 2];
                &&& entry.ino == 100 + n
                &&& entry.offset == n + 3
                &&& entry.kind == FileKind::File
                &&& entry.name == padded_decimal(n as nat, 6)
                &&& namespace.child(2, entry.name) == Some(entry.ino)
            }
        },
{
    let entries = namespace.object_entries();
    assert(entries.skip(0) =~= entries);
    if n < namespace.count() {
        lookup_finds_every_file(namespace, n);
    }
}

/// Whatever a lookup finds in a directory is in its listing.
pub proof fn every_child_is_listed(namespace: FlatObjectNamespace, parent: u64, name: Seq<char>)
    requires
        namespace.nameable(),
        namespace.child(parent, name) is Some,
    ensures
        namespace.listing(parent, 0) matches Some(entries) && exists|i: int|
            0 <= i < entries.len() && (#[trigger] entries[i]).name == name && Some(entries[i].ino)
                == namespace.child(parent, name),
{
    let entries = namespace.entries_of(parent)->0;
    assert(entries.skip(0) =~= entries);
    if parent == FUSE_ROOT_INO {
        assert(entries[2].name == name);
    } else {
        let n = namespace.child(parent, name)->0 - 100;
        lemma_six_digits_bound(name);
        lookup_finds_nothing_else(namespace, name);
        assert(entries[n + 2].name == name);
    }
}

/// The root directory lists itself, itself again as its own parent, and
/// `objects/`, which alone is found in it.
pub proof fn the_root_holds_objects(namespace: FlatObjectNamespace, name: Seq<char>)
    ensures
        namespace.listing(1, 0) == Some(
            seq![
                EntryModel { ino: 1, offset: 1, kind: FileKind::Dir, name: "."@ },
                EntryModel { ino: 1, offset: 2, kind: FileKind::Dir, name: ".."@ },
                EntryModel { ino: 2, offset: 3, kind: FileKind::Dir, name: "objects"@ },
            ],
        ),
        namespace.child(1, name) == if name == "objects"@ {
            Some(2u64)
        } else {
            None
        },
{
    let entries = FlatObjectNamespace::root_entries();
    assert(entries.skip(0) =~= entries);
    assert(entries =~= seq![
        EntryModel { ino: 1, offset: 1, kind: FileKind::Dir, name: "."@ },
        EntryModel { ino: 1, offset: 2, kind: FileKind::Dir, name: ".."@ },
        EntryModel { ino: 2, offset: 3, kind: FileKind::Dir, name: "objects"@ },
    ]);
}

/// A listing from a cookie on leaves out as many entries as the cookie says, and
/// no more; past the end it is empty.
pub proof fn listings_leave_out_what_was_seen(
    namespace: FlatObjectNamespace,
    ino: u64,
    offset: u64,
    i: int,
)
    requires
        namespace.listing(ino, 0) is Some,
    ensures
        namespace.listing(ino, offset) matches Some(rest) && {
            let all = namespace.listing(ino, 0)->0;
            &&& rest.len() == if offset < all.len() {
                all.len() - offset
            } else {
                0
            }
            &&& 0 <= i < rest.len() ==> rest[i] == all[offset + i]
        },
{
    let entries = namespace.entries_of(ino)->0;
    assert(entries.skip(0) =~= entries);
}

/// An inode has attributes exactly if it is the root, `objects/` or one of the
/// files, and they say what it is: a directory, or a file of the common size.
pub proof fn attributes_say_what_an_inode_is(namespace: FlatObjectNamespace, ino: u64)
    requires
        namespace.nameable(),
    ensures
        namespace.attr_of(ino) is Some <==> ino == 1 || ino == 2 || 100 <= ino < 100
            + namespace.count(),
        namespace.attr_of(ino) matches Some(attr) ==> {
            &&& attr.ino == ino
            &&& attr.kind == if ino < 100 {
                FileKind::Dir
            } else {
                FileKind::File
            }
            &&& attr.size == if ino < 100 {
                0
            } else {
                namespace.file_size() as int
            }
            &&& attr.mode == if ino < 100 {
                0o755int
            } else {
                0o644int
            }
            &&& attr.nlink == if ino < 100 {
                2int
            } else {
                1int
            }
            &&& (attr.uid, attr.gid) == namespace.owner()
            &&& attr.mtime == namespace.created()
        },
        namespace.index_of(ino) == if 100 <= ino < 100 + namespace.count() {
            Some((ino - 100) as u64)
        } else {
            None
        },
{
}

} // verus!
