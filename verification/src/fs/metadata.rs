//! Immutable value type describing a filesystem object.

use vstd::prelude::*;

verus! {

/// Relies on `std::time::SystemTime::now` to read the wall clock; the
/// result is converted to whole seconds since the Unix epoch (0 when the
/// clock reports a time before the epoch). Nothing is promised of the
/// value: the clock is not a function of the program's state.
#[verifier::external_body]
fn now_unix_secs() -> u64 {
    std::time::SystemTime::now()
        .duration_since(std::time::UNIX_EPOCH)
        .map(|d| d.as_secs())
        .unwrap_or(0)
}

/// Metadata of a filesystem object: byte length, modification time
/// (seconds since the Unix epoch) and object-kind flags.
///
/// The flags are informative but not mutually exclusive: a symlink to a
/// directory may carry both the symlink and the directory flag, so
/// consumers must check `is_dir` explicitly.
#[derive(Clone, Copy, Debug, PartialEq, Eq, Structural)]
pub struct Metadata {
    pub length: u64,
    pub mtime: u64,
    pub dir: bool,
    pub file: bool,
    pub symlink: bool,
}

impl Metadata {
    /// Builds a record from plain values; the way a base adapter turns a
    /// stat result into the library's own type.
    pub fn new(length: u64, mtime: u64, dir: bool, file: bool, symlink: bool) -> (r: Metadata)
        ensures
            r == (Metadata { length, mtime, dir, file, symlink }),
    {
        Metadata { length, mtime, dir, file, symlink }
    }

    /// A synthetic directory record: length 0, the current time, the
    /// directory flag set and no other flag. This is the only way to
    /// fabricate a record outside of reading real storage; the dry-run
    /// filesystem uses it for the directories it pretends to create.
    pub fn dummy_folder() -> (r: Metadata)
        ensures
            r.length == 0,
            r.dir,
            !r.file,
            !r.symlink,
    {
        Metadata { length: 0, mtime: now_unix_secs(), dir: true, file: false, symlink: false }
    }

    pub fn is_dir(&self) -> (r: bool)
        ensures
            r == self.dir,
    {
        self.dir
    }

    pub fn is_file(&self) -> (r: bool)
        ensures
            r == self.file,
    {
        self.file
    }

    pub fn is_symlink(&self) -> (r: bool)
        ensures
            r == self.symlink,
    {
        self.symlink
    }

    pub fn len(&self) -> (r: u64)
        ensures
            r == self.length,
    {
        self.length
    }

    pub fn modified(&self) -> (r: u64)
        ensures
            r == self.mtime,
    {
        self.mtime
    }
}

} // verus!
