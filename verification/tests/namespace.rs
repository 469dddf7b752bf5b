//! The flat namespace.

use std::time::SystemTime;

use fusecraft::config::FilesConfig;
use fusecraft::error::FsError;
use fusecraft::namespace::flat::MAX_FILES;
use fusecraft::namespace::{
    DirCollector, DirSink, FileKind, FlatObjectNamespace, NamespaceModel, FUSE_ROOT_INO,
};

fn test_config(inode_count: u64) -> FilesConfig {
    FilesConfig {
        inode_count,
        file_size_bytes: 4096,
        ..FilesConfig::default()
    }
}

fn flat(config: &FilesConfig) -> FlatObjectNamespace {
    FlatObjectNamespace::new(config, 1000, 1001, SystemTime::UNIX_EPOCH)
}

struct CollectingSink {
    entries: Vec<(u64, u64, FileKind, String)>,
    stop_after: Option<usize>,
}

impl CollectingSink {
    fn unbounded() -> Self {
        Self {
            entries: Vec::new(),
            stop_after: None,
        }
    }
    fn stop_after(n: usize) -> Self {
        Self {
            entries: Vec::new(),
            stop_after: Some(n),
        }
    }
}

impl DirSink for CollectingSink {
    fn push(&mut self, ino: u64, offset: u64, kind: FileKind, name: &str) -> bool {
        self.entries.push((ino, offset, kind, name.to_string()));
        match self.stop_after {
            Some(n) => self.entries.len() < n,
            None => true,
        }
    }
}

#[test]
fn lookup_objects_under_root() {
    let ns = flat(&test_config(10));
    let ino = ns.lookup(FUSE_ROOT_INO, "objects").expect("objects found");
    assert_eq!(ino, FlatObjectNamespace::OBJECTS_INO);
}

#[test]
fn lookup_rejects_wrong_name_under_root() {
    let ns = flat(&test_config(10));
    assert!(ns.lookup(FUSE_ROOT_INO, "other").is_none());
}

#[test]
fn lookup_file_under_objects() {
    let ns = flat(&test_config(100));
    let ino = ns
        .lookup(FlatObjectNamespace::OBJECTS_INO, "000042")
        .expect("file found");
    assert_eq!(ino, FlatObjectNamespace::FIRST_FILE_INO + 42);
}

#[test]
fn lookup_rejects_invalid_names() {
    let ns = flat(&test_config(100));
    let objects = FlatObjectNamespace::OBJECTS_INO;
    assert!(ns.lookup(objects, "00042").is_none()); // 5 digits
    assert!(ns.lookup(objects, "0000042").is_none()); // 7 digits
    assert!(ns.lookup(objects, "abcdef").is_none());
    assert!(ns.lookup(objects, "00004a").is_none());
}

#[test]
fn lookup_rejects_out_of_range() {
    let ns = flat(&test_config(10));
    assert!(ns
        .lookup(FlatObjectNamespace::OBJECTS_INO, "000010")
        .is_none());
    assert!(ns
        .lookup(FlatObjectNamespace::OBJECTS_INO, "000099")
        .is_none());
}

#[test]
fn lookup_under_unknown_parent() {
    let ns = flat(&test_config(10));
    assert!(ns.lookup(42, "anything").is_none());
}

#[test]
fn lookup_rejects_digits_outside_ascii() {
    let ns = flat(&test_config(100));
    let objects = FlatObjectNamespace::OBJECTS_INO;
    // Six characters, of which some are digits of another script.
    assert!(ns.lookup(objects, "0000\u{664}\u{662}").is_none());
    // Six bytes, but fewer characters.
    assert!(ns.lookup(objects, "0000\u{e9}").is_none());
    assert!(ns.lookup(objects, "").is_none());
}

#[test]
fn attr_root_is_dir() {
    let ns = flat(&test_config(10));
    let a = ns.attr(FUSE_ROOT_INO).expect("root attr");
    assert_eq!(a.ino, FUSE_ROOT_INO);
    assert!(matches!(a.kind, FileKind::Dir));
    assert_eq!(a.mode, 0o755);
    assert_eq!(a.nlink, 2);
}

#[test]
fn attr_objects_is_dir() {
    let ns = flat(&test_config(10));
    let a = ns.attr(FlatObjectNamespace::OBJECTS_INO).unwrap();
    assert!(matches!(a.kind, FileKind::Dir));
}

#[test]
fn attr_file_has_configured_size() {
    let ns = flat(&test_config(10));
    let a = ns.attr(FlatObjectNamespace::FIRST_FILE_INO + 5).unwrap();
    assert!(matches!(a.kind, FileKind::File));
    assert_eq!(a.size, 4096);
    assert_eq!(a.mode, 0o644);
    assert_eq!(a.nlink, 1);
}

#[test]
fn attr_carries_owner_and_creation_time() {
    let ns = flat(&test_config(10));
    for ino in [FUSE_ROOT_INO, FlatObjectNamespace::FIRST_FILE_INO] {
        let a = ns.attr(ino).unwrap();
        assert_eq!(a.uid, 1000);
        assert_eq!(a.gid, 1001);
        assert_eq!(a.mtime, SystemTime::UNIX_EPOCH);
    }
}

#[test]
fn attr_unknown_inode() {
    let ns = flat(&test_config(10));
    assert!(ns.attr(FlatObjectNamespace::FIRST_FILE_INO + 10).is_none());
    assert!(ns.attr(50).is_none());
}

#[test]
fn readdir_root_yields_dot_dotdot_objects() {
    let ns = flat(&test_config(10));
    let mut sink = CollectingSink::unbounded();
    ns.readdir(FUSE_ROOT_INO, 0, &mut sink).unwrap();
    assert_eq!(sink.entries.len(), 3);
    assert_eq!(sink.entries[0].3, ".");
    assert_eq!(sink.entries[1].3, "..");
    assert_eq!(sink.entries[2].3, "objects");
    assert_eq!(sink.entries[2].1, 3);
}

#[test]
fn readdir_root_respects_offset() {
    let ns = flat(&test_config(10));
    let mut sink = CollectingSink::unbounded();
    ns.readdir(FUSE_ROOT_INO, 2, &mut sink).unwrap();
    assert_eq!(sink.entries.len(), 1);
    assert_eq!(sink.entries[0].3, "objects");
}

#[test]
fn readdir_objects_yields_all_entries() {
    let ns = flat(&test_config(5));
    let mut sink = CollectingSink::unbounded();
    ns.readdir(FlatObjectNamespace::OBJECTS_INO, 0, &mut sink)
        .unwrap();
    // ".", "..", and 5 files.
    assert_eq!(sink.entries.len(), 7);
    assert_eq!(sink.entries[0].3, ".");
    assert_eq!(sink.entries[1].3, "..");
    for (idx, (ino, off, kind, name)) in sink.entries[2..].iter().enumerate() {
        assert_eq!(*name, format!("{:06}", idx));
        assert_eq!(*ino, FlatObjectNamespace::FIRST_FILE_INO + idx as u64);
        assert_eq!(*off, 3 + idx as u64);
        assert!(matches!(kind, FileKind::File));
    }
}

#[test]
fn readdir_objects_respects_offset() {
    let ns = flat(&test_config(10));
    let mut sink = CollectingSink::unbounded();
    // FUSE cookie semantics: offset=4 means resume AFTER the entry at offset 4.
    // Entries: "." @1, ".." @2, "000000" @3, "000001" @4, "000002" @5, ...
    // So the first emitted entry is "000002" at offset 5.
    ns.readdir(FlatObjectNamespace::OBJECTS_INO, 4, &mut sink)
        .unwrap();
    assert_eq!(sink.entries[0].3, "000002");
    assert_eq!(sink.entries[0].1, 5);
}

#[test]
fn readdir_stops_when_sink_returns_false() {
    let ns = flat(&test_config(100));
    let mut sink = CollectingSink::stop_after(5);
    ns.readdir(FlatObjectNamespace::OBJECTS_INO, 0, &mut sink)
        .unwrap();
    assert_eq!(sink.entries.len(), 5);
}

#[test]
fn readdir_stops_in_the_root_and_among_the_dots() {
    let ns = flat(&test_config(100));
    for ino in [FUSE_ROOT_INO, FlatObjectNamespace::OBJECTS_INO] {
        for n in 1..3 {
            let mut sink = CollectingSink::stop_after(n);
            ns.readdir(ino, 0, &mut sink).unwrap();
            assert_eq!(sink.entries.len(), n);
        }
    }
}

#[test]
fn readdir_past_the_end_yields_nothing() {
    let ns = flat(&test_config(10));
    for ino in [FUSE_ROOT_INO, FlatObjectNamespace::OBJECTS_INO] {
        for offset in [12, 13, 1_000_000, u64::MAX] {
            let mut sink = CollectingSink::unbounded();
            ns.readdir(ino, offset, &mut sink).unwrap();
            assert!(sink.entries.is_empty());
        }
    }
}

#[test]
fn readdir_on_file_returns_enotdir() {
    let ns = flat(&test_config(10));
    let mut sink = CollectingSink::unbounded();
    let err = ns
        .readdir(FlatObjectNamespace::FIRST_FILE_INO, 0, &mut sink)
        .unwrap_err();
    match err {
        FsError::Errno(e) => assert_eq!(e, libc::ENOTDIR),
        other => panic!("expected ENOTDIR, got {other:?}"),
    }
}

#[test]
fn readdir_resumes_after_every_cookie() {
    let ns = flat(&test_config(7));
    let mut all = CollectingSink::unbounded();
    ns.readdir(FlatObjectNamespace::OBJECTS_INO, 0, &mut all)
        .unwrap();
    for i in 0..all.entries.len() {
        let mut rest = CollectingSink::unbounded();
        ns.readdir(
            FlatObjectNamespace::OBJECTS_INO,
            all.entries[i].1,
            &mut rest,
        )
        .unwrap();
        assert_eq!(rest.entries, all.entries[i + 1..]);
    }
}

#[test]
fn readdir_into_a_trait_object() {
    let ns = flat(&test_config(2));
    let mut collector = DirCollector::new();
    {
        let sink: &mut dyn DirSink = &mut collector;
        ns.readdir(FlatObjectNamespace::OBJECTS_INO, 0, sink)
            .unwrap();
    }
    let names: Vec<&str> = collector.entries.iter().map(|e| e.name.as_str()).collect();
    assert_eq!(names, vec![".", "..", "000000", "000001"]);
}

#[test]
fn listed_names_are_found_by_lookup() {
    let ns = flat(&test_config(50));
    let mut sink = CollectingSink::unbounded();
    ns.readdir(FlatObjectNamespace::OBJECTS_INO, 2, &mut sink)
        .unwrap();
    assert_eq!(sink.entries.len(), 50);
    for (ino, _, kind, name) in &sink.entries {
        assert_eq!(
            ns.lookup(FlatObjectNamespace::OBJECTS_INO, name),
            Some(*ino)
        );
        assert_eq!(ns.attr(*ino).unwrap().kind, *kind);
    }
}

#[test]
fn flat_usable_via_trait_object() {
    let ns: Box<dyn NamespaceModel> = Box::new(flat(&test_config(3)));
    let ino = ns
        .lookup(FUSE_ROOT_INO, "objects")
        .expect("lookup through trait");
    assert_eq!(ino, FlatObjectNamespace::OBJECTS_INO);
    let attr = ns.attr(FUSE_ROOT_INO).unwrap();
    assert!(matches!(attr.kind, FileKind::Dir));
}

#[test]
fn clamps_inode_count_at_limit() {
    let mut config = test_config(0);
    config.inode_count = 2_000_000;
    let ns = flat(&config);
    assert_eq!(ns.inode_count(), MAX_FILES - 1);
}

#[test]
fn counts_up_to_the_limit_are_kept() {
    assert_eq!(flat(&test_config(999_999)).inode_count(), 999_999);
    assert_eq!(flat(&test_config(1_000_000)).inode_count(), 999_999);
    assert_eq!(flat(&test_config(1)).inode_count(), 1);
    assert_eq!(flat(&test_config(1)).file_size_bytes(), 4096);
}

#[test]
fn clamping_is_announced() {
    assert_eq!(
        FlatObjectNamespace::clamp_warning(&test_config(2_000_000)).as_deref(),
        Some("fusecraft: inode_count (2000000) exceeds maximum 999999; clamping to 999999")
    );
    assert_eq!(
        FlatObjectNamespace::clamp_warning(&test_config(999_999)),
        None
    );
}

#[test]
fn names_and_indices() {
    assert_eq!(FlatObjectNamespace::index_to_name(0), "000000");
    assert_eq!(FlatObjectNamespace::index_to_name(42), "000042");
    assert_eq!(FlatObjectNamespace::index_to_name(999_999), "999999");
    assert_eq!(FlatObjectNamespace::index_to_name(1_234_567), "1234567");
    let ns = flat(&test_config(10));
    assert_eq!(ns.ino_to_index(99), None);
    assert_eq!(ns.ino_to_index(100), Some(0));
    assert_eq!(ns.ino_to_index(109), Some(9));
    assert_eq!(ns.ino_to_index(110), None);
}
