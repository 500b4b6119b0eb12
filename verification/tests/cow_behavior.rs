use layerfs::fs::cow::{CowFs, CowState, Reflinker, ReflinkSupport, MAX_FAILS_COUNT};
use layerfs::fs::error::{ErrorKind, FsError, FsOp};
use layerfs::fs::mem::MemFs;
use layerfs::fs::metadata::Metadata;
use layerfs::fs::{Fs, ReadonlyFs};

/// A clone primitive that always succeeds, counting its calls.
struct AlwaysClones {
    calls: u64,
}

impl Reflinker for AlwaysClones {
    fn reflink(&mut self, _from: &str, _to: &str) -> Result<(), FsError> {
        self.calls += 1;
        Ok(())
    }

    fn reflink_or_copy(&mut self, _from: &str, _to: &str) -> Result<Option<u64>, FsError> {
        self.calls += 1;
        Ok(None)
    }
}

/// A clone primitive on a volume that cannot clone: a forced clone
/// fails, a clone-or-copy falls back to a byte copy of a fixed size.
/// It counts its calls, so a caller can observe whether the chain still
/// attempts clones.
struct NeverClones {
    calls: u64,
}

impl Reflinker for NeverClones {
    fn reflink(&mut self, _from: &str, _to: &str) -> Result<(), FsError> {
        self.calls += 1;
        Err(FsError::bare(ErrorKind::Io))
    }

    fn reflink_or_copy(&mut self, _from: &str, _to: &str) -> Result<Option<u64>, FsError> {
        self.calls += 1;
        Ok(Some(7))
    }
}

/// A clone primitive whose calls themselves fail outright.
struct Breaks;

impl Reflinker for Breaks {
    fn reflink(&mut self, _from: &str, _to: &str) -> Result<(), FsError> {
        Err(FsError::bare(ErrorKind::Io))
    }

    fn reflink_or_copy(&mut self, _from: &str, _to: &str) -> Result<Option<u64>, FsError> {
        Err(FsError::bare(ErrorKind::Io))
    }
}

fn seeded_memfs() -> MemFs {
    let mut fs = MemFs::new();
    fs.create_dir_all("/").unwrap();
    fs.put("/src", Metadata::new(7, 1, false, true, false));
    fs
}

#[test]
fn cow_new_maps_support_to_state() {
    let a = CowFs::new(MemFs::new(), AlwaysClones { calls: 0 }, ReflinkSupport::Supported);
    assert_eq!(a.reflink_state(), CowState::ForceReflink);
    let b = CowFs::new(MemFs::new(), AlwaysClones { calls: 0 }, ReflinkSupport::Unknown);
    assert_eq!(b.reflink_state(), CowState::ReflinkOrCopy);
}

#[test]
fn forced_reflink_returns_zero_bytes() {
    let mut fs = CowFs::new(
        seeded_memfs(),
        AlwaysClones { calls: 0 },
        ReflinkSupport::Supported,
    );
    assert_eq!(fs.copy("/src", "/dst").unwrap(), 0);
    assert_eq!(fs.linker.calls, 1);
    assert_eq!(fs.reflink_state(), CowState::ForceReflink);
}

#[test]
fn forced_reflink_failure_is_a_hard_error() {
    let mut fs = CowFs::new(
        seeded_memfs(),
        NeverClones { calls: 0 },
        ReflinkSupport::Supported,
    );
    let e = fs.copy("/src", "/dst").unwrap_err();
    assert_eq!(e.kind(), ErrorKind::ReflinkUnsupported);
    let last = e.frame_at(e.frame_count() - 1);
    assert_eq!(last.op(), FsOp::Reflink);
    assert_eq!(last.path_at(0).as_str(), "/src");
    assert_eq!(last.path_at(1).as_str(), "/dst");
    // Forcing never downgrades, however often it fails.
    assert_eq!(fs.reflink_state(), CowState::ForceReflink);
}

#[test]
fn clone_success_counts_and_returns_zero() {
    let mut fs = CowFs::new(
        seeded_memfs(),
        AlwaysClones { calls: 0 },
        ReflinkSupport::Unknown,
    );
    assert_eq!(fs.copy("/src", "/dst").unwrap(), 0);
    assert_eq!(fs.success_reflinks, 1);
    assert_eq!(fs.failed_reflinks, 0);
    assert_eq!(fs.reflink_state(), CowState::ReflinkOrCopy);
}

#[test]
fn fallback_copies_count_failures_and_latch_to_copy() {
    let mut fs = CowFs::new(
        seeded_memfs(),
        NeverClones { calls: 0 },
        ReflinkSupport::Unknown,
    );
    // The first MAX_FAILS_COUNT failed clones keep the strategy.
    for i in 0..MAX_FAILS_COUNT {
        let to = format!("/dst{}", i);
        assert_eq!(fs.copy("/src", &to).unwrap(), 7);
        assert_eq!(fs.reflink_state(), CowState::ReflinkOrCopy);
    }
    assert_eq!(fs.failed_reflinks, MAX_FAILS_COUNT);
    // Failure number MAX_FAILS_COUNT + 1 downgrades permanently.
    assert_eq!(fs.copy("/src", "/dst_last").unwrap(), 7);
    assert_eq!(fs.reflink_state(), CowState::CopyOnly);
    assert_eq!(fs.failed_reflinks, MAX_FAILS_COUNT + 1);
    assert_eq!(fs.linker.calls, MAX_FAILS_COUNT + 1);
    // No further call attempts a clone: the primitive's call counter
    // stays put, and the wrapped filesystem does the copying.
    assert_eq!(fs.copy("/src", "/plain").unwrap(), 7);
    assert_eq!(fs.linker.calls, MAX_FAILS_COUNT + 1);
    assert_eq!(fs.reflink_state(), CowState::CopyOnly);
    assert!(fs.fs.exists_at("/plain"));
}

#[test]
fn one_clone_success_prevents_the_downgrade() {
    let mut fs = CowFs::new(
        seeded_memfs(),
        AlwaysClones { calls: 0 },
        ReflinkSupport::Unknown,
    );
    assert_eq!(fs.copy("/src", "/ok").unwrap(), 0);
    assert_eq!(fs.success_reflinks, 1);
    // From here on the volume stops cloning, but the one success keeps
    // the strategy from latching.
    let mut fs = CowFs {
        fs: fs.fs,
        linker: NeverClones { calls: 0 },
        state: fs.state,
        success_reflinks: fs.success_reflinks,
        failed_reflinks: fs.failed_reflinks,
    };
    for i in 0..(2 * MAX_FAILS_COUNT) {
        let to = format!("/later{}", i);
        assert_eq!(fs.copy("/src", &to).unwrap(), 7);
    }
    assert_eq!(fs.reflink_state(), CowState::ReflinkOrCopy);
    assert_eq!(fs.failed_reflinks, 2 * MAX_FAILS_COUNT);
}

#[test]
fn clone_primitive_error_changes_nothing() {
    let mut fs = CowFs::new(seeded_memfs(), Breaks, ReflinkSupport::Unknown);
    let e = fs.copy("/src", "/dst").unwrap_err();
    assert_eq!(e.kind(), ErrorKind::Io);
    assert_eq!(fs.success_reflinks, 0);
    assert_eq!(fs.failed_reflinks, 0);
    assert_eq!(fs.reflink_state(), CowState::ReflinkOrCopy);
    assert!(!fs.fs.exists_at("/dst"));
}

#[test]
fn cow_passes_other_operations_through() {
    let mut fs = CowFs::new(
        seeded_memfs(),
        AlwaysClones { calls: 0 },
        ReflinkSupport::Unknown,
    );
    fs.create_dir_all("/d").unwrap();
    assert!(fs.exists_at("/d"));
    assert_eq!(fs.metadata("/src").unwrap().len(), 7);
    assert_eq!(fs.linker.calls, 0);
    assert_eq!(fs.name(), "CoW(MemFs)");
}
