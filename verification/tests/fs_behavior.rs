use layerfs::fs::create_dir_all_then_exists;
use layerfs::fs::dry::{DryFs, ObjectMap};
use layerfs::fs::error::{ErrorFrame, ErrorKind, FsError, FsOp};
use layerfs::fs::mem::MemFs;
use layerfs::fs::metadata::Metadata;
use layerfs::fs::path::parent;
use layerfs::fs::{Fs, ReadonlyFs};

#[test]
fn dummy_folder_is_synthetic_directory() {
    let m = Metadata::dummy_folder();
    assert!(m.is_dir());
    assert!(!m.is_file());
    assert!(!m.is_symlink());
    assert_eq!(m.len(), 0);
}

#[test]
fn metadata_accessors_return_fields() {
    let m = Metadata::new(5, 7, false, true, false);
    assert_eq!(m.len(), 5);
    assert_eq!(m.modified(), 7);
    assert!(!m.is_dir());
    assert!(m.is_file());
    assert!(!m.is_symlink());
}

#[test]
fn parent_walks_one_component() {
    assert_eq!(parent("/a/b"), Some("/a"));
    assert_eq!(parent("/a"), Some("/"));
    assert_eq!(parent("/"), None);
    assert_eq!(parent("a"), None);
    assert_eq!(parent(""), None);
}

#[test]
fn memfs_create_dir_all_then_exists() {
    let mut fs = MemFs::new();
    assert!(!fs.exists_at("/a/b"));
    assert!(fs.create_dir_all("/a/b").is_ok());
    assert!(fs.exists_at("/a/b"));
    assert!(fs.exists_at("/a"));
    assert!(fs.exists_at("/"));
    assert!(!fs.exists_at("/x"));
    let m = fs.metadata("/a/b").unwrap();
    assert!(m.is_dir());
    assert_eq!(m.len(), 0);
}

#[test]
fn memfs_create_dir_all_is_idempotent() {
    let mut fs = MemFs::new();
    assert!(fs.create_dir_all("/a").is_ok());
    assert!(fs.create_dir_all("/a").is_ok());
}

#[test]
fn memfs_create_dir_over_file_fails() {
    let mut fs = MemFs::new();
    fs.put("/a", Metadata::new(3, 1, false, true, false));
    let e = fs.create_dir_all("/a").unwrap_err();
    assert_eq!(e.kind(), ErrorKind::Io);
    let e2 = fs.create_dir_all("/a/b").unwrap_err();
    assert_eq!(e2.kind(), ErrorKind::Io);
}

#[test]
fn memfs_copy_duplicates_file_records() {
    let mut fs = MemFs::new();
    fs.put("/f", Metadata::new(10, 3, false, true, false));
    assert_eq!(fs.copy("/f", "/g").unwrap(), 10);
    let g = fs.metadata("/g").unwrap();
    assert_eq!(g.len(), 10);
    assert!(g.is_file());
    // A real copy overwrites an existing target.
    fs.put("/h", Metadata::new(99, 8, false, true, false));
    assert_eq!(fs.copy("/f", "/h").unwrap(), 10);
    assert_eq!(fs.metadata("/h").unwrap().len(), 10);
}

#[test]
fn memfs_copy_missing_source_fails() {
    let mut fs = MemFs::new();
    let e = fs.copy("/nope", "/g").unwrap_err();
    assert_eq!(e.kind(), ErrorKind::Io);
    assert!(!fs.exists_at("/g"));
}

#[test]
fn memfs_copy_of_directory_fails() {
    let mut fs = MemFs::new();
    fs.create_dir_all("/d").unwrap();
    let e = fs.copy("/d", "/g").unwrap_err();
    assert_eq!(e.kind(), ErrorKind::Io);
}

#[test]
fn generic_create_then_exists_answers_true() {
    let mut fs = MemFs::new();
    assert_eq!(create_dir_all_then_exists(&mut fs, "/p/q").unwrap(), true);
    let mut dry = DryFs::new(MemFs::new(), ObjectMap::new());
    dry.fs.create_dir_all("/").unwrap();
    assert_eq!(create_dir_all_then_exists(&mut dry, "/p/q").unwrap(), true);
}

#[test]
fn dryfs_create_dir_touches_no_real_storage() {
    let mut inner = MemFs::new();
    inner.create_dir_all("/").unwrap();
    let mut dry = DryFs::new(inner, ObjectMap::new());
    assert!(dry.create_dir_all("/a/b").is_ok());
    assert!(dry.exists_at("/a/b"));
    assert!(dry.exists_at("/a"));
    // The wrapped storage saw none of it.
    assert!(!dry.fs.exists_at("/a/b"));
    assert!(!dry.fs.exists_at("/a"));
    // The virtual records are synthetic directories without provenance.
    let m = dry.find_object("/a/b").unwrap();
    assert!(m.is_dir());
    assert_eq!(m.len(), 0);
}

#[test]
fn dryfs_create_dir_without_parent_fails() {
    let mut dry = DryFs::new(MemFs::new(), ObjectMap::new());
    let e = dry.create_dir_all("/a").unwrap_err();
    assert_eq!(e.kind(), ErrorKind::PathNoParent);
    assert_eq!(e.frame_count(), 1);
    let f = e.frame_at(0);
    assert_eq!(f.op(), FsOp::CreateDirAll);
    assert_eq!(f.path_at(0).as_str(), "/");
    assert_eq!(dry.objects.entry_count(), 0);
}

#[test]
fn dryfs_copy_records_provenance_and_length() {
    let mut inner = MemFs::new();
    inner.put("/src", Metadata::new(42, 9, false, true, false));
    let mut dry = DryFs::new(inner, ObjectMap::new());
    assert_eq!(dry.copy("/src", "/dst").unwrap(), 42);
    assert!(dry.exists_at("/dst"));
    assert_eq!(dry.find_object("/dst").unwrap().len(), 42);
    assert!(!dry.fs.exists_at("/dst"));
    let entry = dry.objects.entry_at(0);
    assert_eq!(entry.path.as_str(), "/dst");
    assert_eq!(entry.val.source.as_deref(), Some("/src"));
}

#[test]
fn dryfs_copy_onto_existing_fails_with_already_exists() {
    let mut inner = MemFs::new();
    inner.put("/src", Metadata::new(42, 9, false, true, false));
    inner.put("/real", Metadata::new(1, 1, false, true, false));
    let mut dry = DryFs::new(inner, ObjectMap::new());
    assert!(dry.copy("/src", "/dst").is_ok());
    // Onto a virtual object.
    let e = dry.copy("/src", "/dst").unwrap_err();
    assert_eq!(e.kind(), ErrorKind::AlreadyExists);
    assert_eq!(e.frame_at(0).op(), FsOp::CopyFile);
    assert_eq!(e.frame_at(0).path_at(0).as_str(), "/dst");
    // Onto a real object.
    let e2 = dry.copy("/src", "/real").unwrap_err();
    assert_eq!(e2.kind(), ErrorKind::AlreadyExists);
    // The map is untouched by the failures: still exactly one record.
    assert_eq!(dry.objects.entry_count(), 1);
}

#[test]
fn dryfs_copy_missing_source_reports_lookup_error() {
    let mut dry = DryFs::new(MemFs::new(), ObjectMap::new());
    let e = dry.copy("/nope", "/dst").unwrap_err();
    assert_eq!(e.kind(), ErrorKind::Io);
    assert_eq!(dry.objects.entry_count(), 0);
}

#[test]
fn dryfs_metadata_prefers_virtual_then_falls_back() {
    let mut inner = MemFs::new();
    inner.put("/real", Metadata::new(7, 2, false, true, false));
    inner.put("/src", Metadata::new(5, 4, false, true, false));
    let mut dry = DryFs::new(inner, ObjectMap::new());
    assert_eq!(dry.metadata("/real").unwrap().len(), 7);
    dry.copy("/src", "/virt").unwrap();
    assert_eq!(dry.metadata("/virt").unwrap().len(), 5);
    assert!(dry.metadata("/gone").is_err());
}

#[test]
fn dryfs_create_dir_over_existing_object_is_idempotent() {
    // The simulation only checks existence: even a file at the path
    // makes the call succeed early, and nothing is recorded.
    let mut inner = MemFs::new();
    inner.put("/f", Metadata::new(3, 1, false, true, false));
    let mut dry = DryFs::new(inner, ObjectMap::new());
    assert!(dry.create_dir_all("/f").is_ok());
    assert_eq!(dry.objects.entry_count(), 0);
}

#[test]
fn error_detail_survives_context_frames() {
    let e = FsError::with_detail(ErrorKind::Io, "disk full".to_string());
    let e = e.pushed(ErrorFrame::for_path(FsOp::CopyFile, "/a".to_string()));
    assert_eq!(e.kind(), ErrorKind::Io);
    assert_eq!(e.detail().as_deref(), Some("disk full"));
    assert_eq!(e.frame_count(), 1);
}

#[test]
fn dryfs_name_embeds_inner_name() {
    let dry = DryFs::new(MemFs::new(), ObjectMap::new());
    assert_eq!(dry.name(), "Dry(MemFs)");
}
