use layerfs::fs::error::{ErrorKind, FsOp};
use layerfs::fs::mem::MemFs;
use layerfs::fs::metadata::Metadata;
use layerfs::fs::stat::{StatFs, Stats};
use layerfs::fs::{ErrorContextFs, Fs, ReadonlyFs};

fn seeded_memfs() -> MemFs {
    let mut fs = MemFs::new();
    fs.create_dir_all("/").unwrap();
    fs.put("/a.bin", Metadata::new(10, 100, false, true, false));
    fs.put("/b.bin", Metadata::new(20, 200, false, true, false));
    fs.put("/c.bin", Metadata::new(30, 300, false, true, false));
    fs
}

#[test]
fn stats_count_file_accumulates() {
    let mut s = Stats::new();
    assert_eq!(s.copied_count(), 0);
    assert_eq!(s.copied_size(), 0);
    s.count_file(10);
    s.count_file(32);
    assert_eq!(s.copied_count(), 2);
    assert_eq!(s.copied_size(), 42);
}

#[test]
fn statfs_counts_successful_copies_only() {
    let mut fs = StatFs::new(seeded_memfs(), Stats::new());
    assert_eq!(fs.copy("/a.bin", "/a2").unwrap(), 10);
    assert_eq!(fs.copy("/b.bin", "/b2").unwrap(), 20);
    assert_eq!(fs.copy("/c.bin", "/c2").unwrap(), 30);
    assert_eq!(fs.stats.copied_count(), 3);
    assert_eq!(fs.stats.copied_size(), 60);
    // A failed copy moves neither counter.
    assert!(fs.copy("/missing", "/m2").is_err());
    assert_eq!(fs.stats.copied_count(), 3);
    assert_eq!(fs.stats.copied_size(), 60);
    // Other operations never move the counters.
    fs.create_dir_all("/d").unwrap();
    assert!(fs.exists_at("/d"));
    assert_eq!(fs.stats.copied_count(), 3);
}

#[test]
fn statfs_exposes_underlying_fs() {
    let fs = StatFs::new(seeded_memfs(), Stats::new());
    assert!(fs.get_underlying_fs().exists_at("/a.bin"));
}

#[test]
fn end_to_end_stats_over_error_context() {
    // Stat(ErrorContextFs(MemFs)): copy three files of sizes 10, 20, 30.
    let mut fs = StatFs::new(ErrorContextFs::new(seeded_memfs()), Stats::new());
    fs.create_dir_all("/out").unwrap();
    assert_eq!(fs.copy("/a.bin", "/out/a").unwrap(), 10);
    assert_eq!(fs.copy("/b.bin", "/out/b").unwrap(), 20);
    assert_eq!(fs.copy("/c.bin", "/out/c").unwrap(), 30);
    assert_eq!(fs.stats.copied_count(), 3);
    assert_eq!(fs.stats.copied_size(), 60);
    // Each target's byte length matches its source.
    assert_eq!(
        fs.metadata("/out/a").unwrap().len(),
        fs.metadata("/a.bin").unwrap().len()
    );
    assert_eq!(
        fs.metadata("/out/b").unwrap().len(),
        fs.metadata("/b.bin").unwrap().len()
    );
    assert_eq!(
        fs.metadata("/out/c").unwrap().len(),
        fs.metadata("/c.bin").unwrap().len()
    );
}

#[test]
fn error_context_names_path_and_keeps_cause() {
    let fs = ErrorContextFs::new(seeded_memfs());
    let e = fs.metadata("/nope").unwrap_err();
    // The root cause's kind is preserved for inspection.
    assert_eq!(e.kind(), ErrorKind::Io);
    // The appended frame names the operation and the offending path.
    assert_eq!(e.frame_count(), 1);
    let f = e.frame_at(0);
    assert_eq!(f.op(), FsOp::ReadMetadata);
    assert_eq!(f.path_count(), 1);
    assert_eq!(f.path_at(0).as_str(), "/nope");
}

#[test]
fn error_context_copy_failure_names_both_paths() {
    let mut fs = ErrorContextFs::new(seeded_memfs());
    let e = fs.copy("/missing", "/target").unwrap_err();
    assert_eq!(e.kind(), ErrorKind::Io);
    let f = e.frame_at(0);
    assert_eq!(f.op(), FsOp::CopyFile);
    assert_eq!(f.path_count(), 2);
    assert_eq!(f.path_at(0).as_str(), "/missing");
    assert_eq!(f.path_at(1).as_str(), "/target");
}

#[test]
fn error_context_layers_stack_innermost_first() {
    // A file in the way of the directory chain makes the leaf fail.
    let mut inner = MemFs::new();
    inner.put("/a", Metadata::new(1, 1, false, true, false));
    let mut fs = ErrorContextFs::new(ErrorContextFs::new(inner));
    let e = fs.create_dir_all("/a/b").unwrap_err();
    assert_eq!(e.kind(), ErrorKind::Io);
    assert_eq!(e.frame_count(), 2);
    // Innermost frame first; both name the same operation and path.
    assert_eq!(e.frame_at(0).op(), FsOp::CreateDirAll);
    assert_eq!(e.frame_at(0).path_at(0).as_str(), "/a/b");
    assert_eq!(e.frame_at(1).op(), FsOp::CreateDirAll);
    assert_eq!(e.frame_at(1).path_at(0).as_str(), "/a/b");
}

#[test]
fn error_context_passes_successes_through() {
    let mut fs = ErrorContextFs::new(seeded_memfs());
    assert!(fs.create_dir_all("/d").is_ok());
    assert!(fs.exists_at("/d"));
    assert_eq!(fs.metadata("/a.bin").unwrap().len(), 10);
    assert_eq!(fs.copy("/a.bin", "/a2").unwrap(), 10);
}

#[test]
fn decorator_names_compose() {
    let fs = StatFs::new(ErrorContextFs::new(MemFs::new()), Stats::new());
    assert_eq!(fs.name(), "Stat(ErrorContextFs(MemFs))");
}
