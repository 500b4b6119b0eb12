//! Usage statistics: a decorator that counts successful copies.
//!
//! Only `copy` is instrumented: on success the copied-file counter grows
//! by one and the copied-byte counter by the returned size; on failure
//! the counters are untouched. Every other operation passes through
//! verbatim.

use vstd::prelude::*;
use crate::fs::{Fs, ReadonlyFs};
use crate::fs::error::{ErrorModel, FsError};
use crate::fs::metadata::Metadata;
use vstd::string::StringExecFns;

verus! {

/// The copy counters: how many files were copied and how many bytes.
/// Both grow monotonically; each saturates at its type's maximum rather
/// than wrap.
#[derive(Clone, Copy, Debug, PartialEq, Eq, Structural)]
pub struct Stats {
    pub copied_count: i64,
    pub copied_size: u64,
}

/// The counters after one successful copy of `size` bytes.
pub open spec fn bump(s: Stats, size: u64) -> Stats {
    Stats {
        copied_count: if s.copied_count < i64::MAX {
            (s.copied_count + 1) as i64
        } else {
            i64::MAX
        },
        copied_size: if s.copied_size + size <= u64::MAX {
            (s.copied_size + size) as u64
        } else {
            u64::MAX
        },
    }
}

/// The counters after a run of successful copies of the given sizes.
pub open spec fn after_copies(s: Stats, sizes: Seq<u64>) -> Stats
    decreases sizes.len(),
{
    if sizes.len() == 0 {
        s
    } else {
        bump(after_copies(s, sizes.drop_last()), sizes.last())
    }
}

/// The total of a run of copy sizes.
pub open spec fn size_total(sizes: Seq<u64>) -> int
    decreases sizes.len(),
{
    if sizes.len() == 0 {
        0
    } else {
        size_total(sizes.drop_last()) + sizes.last()
    }
}

pub proof fn lemma_size_total_nonneg(sizes: Seq<u64>)
    ensures
        size_total(sizes) >= 0,
    decreases sizes.len(),
{
    if sizes.len() > 0 {
        lemma_size_total_nonneg(sizes.drop_last());
    }
}

/// After a run of successful copies of sizes `s_1 .. s_N`, as long as
/// neither counter saturates, the copied-file counter grew by exactly
/// `N` and the copied-byte counter by exactly the sizes' total; a failed
/// copy contributes to neither, since only `bump` moves the counters.
pub proof fn lemma_stats_accumulate(s: Stats, sizes: Seq<u64>)
    requires
        s.copied_count + sizes.len() <= i64::MAX,
        s.copied_size + size_total(sizes) <= u64::MAX,
        s.copied_count >= 0,
    ensures
        after_copies(s, sizes).copied_count == s.copied_count + sizes.len(),
        after_copies(s, sizes).copied_size == s.copied_size + size_total(sizes),
    decreases sizes.len(),
{
    if sizes.len() > 0 {
        lemma_size_total_nonneg(sizes.drop_last());
        lemma_stats_accumulate(s, sizes.drop_last());
    }
}

impl Stats {
    /// Fresh counters, both zero.
    pub fn new() -> (r: Stats)
        ensures
            r.copied_count == 0,
            r.copied_size == 0,
    {
        Stats { copied_count: 0, copied_size: 0 }
    }

    /// Records one successful copy of `size` bytes.
    pub fn count_file(&mut self, size: u64)
        ensures
            *final(self) == bump(*old(self), size),
    {
        self.copied_count = match self.copied_count.checked_add(1) {
            Some(c) => c,
            None => i64::MAX,
        };
        self.copied_size = self.copied_size.saturating_add(size);
    }

    /// How many files were copied.
    pub fn copied_count(&self) -> (r: i64)
        ensures
            r == self.copied_count,
    {
        self.copied_count
    }

    /// How many bytes were copied.
    pub fn copied_size(&self) -> (r: u64)
        ensures
            r == self.copied_size,
    {
        self.copied_size
    }
}

impl Default for Stats {
    fn default() -> (r: Stats)
        ensures
            r.copied_count == 0,
            r.copied_size == 0,
    {
        Stats::new()
    }
}

/// Wraps any filesystem and holds the copy counters.
pub struct StatFs<T> {
    pub fs: T,
    pub stats: Stats,
}

impl<T: Fs> StatFs<T> {
    pub fn new(fs: T, stats: Stats) -> (r: Self)
        ensures
            r == (StatFs { fs, stats }),
    {
        StatFs { fs, stats }
    }

    /// The wrapped filesystem, for reading inner state after a run.
    pub fn get_underlying_fs(&self) -> (r: &T)
        ensures
            r == &self.fs,
    {
        &self.fs
    }

    /// The counters gathered so far.
    pub fn stats(&self) -> (r: &Stats)
        ensures
            r == &self.stats,
    {
        &self.stats
    }
}

impl<T: Fs> ReadonlyFs for StatFs<T> {
    open spec fn objs(&self) -> Map<Seq<char>, Metadata> {
        self.fs.objs()
    }

    open spec fn wf(&self) -> bool {
        self.fs.wf()
    }

    open spec fn spec_name(&self) -> Seq<char> {
        "Stat("@ + self.fs.spec_name() + ")"@
    }

    open spec fn md_err(&self, path: Seq<char>, e: ErrorModel) -> bool {
        self.fs.md_err(path, e)
    }

    fn name(&self) -> (r: String) {
        let inner = self.fs.name();
        "Stat(".to_owned().concat(inner.as_str()).concat(")")
    }

    fn metadata(&self, path: &str) -> (r: Result<Metadata, FsError>) {
        self.fs.metadata(path)
    }

    fn exists_at(&self, path: &str) -> (r: bool) {
        self.fs.exists_at(path)
    }
}

impl<T: Fs> Fs for StatFs<T> {
    /// Passes through; the counters are untouched.
    open spec fn cda_post(pre: Self, post: Self, path: Seq<char>, r: Result<(), ErrorModel>) -> bool {
        &&& T::cda_post(pre.fs, post.fs, path, r)
        &&& post.stats == pre.stats
    }

    /// Passes through; on success the counters take one `bump` of the
    /// returned size, on failure they are untouched.
    open spec fn copy_post(pre: Self, post: Self, from: Seq<char>, to: Seq<char>, r: Result<
        u64,
        ErrorModel,
    >) -> bool {
        &&& T::copy_post(pre.fs, post.fs, from, to, r)
        &&& match r {
            Ok(s) => post.stats == bump(pre.stats, s),
            Err(_) => post.stats == pre.stats,
        }
    }

    fn create_dir_all(&mut self, path: &str) -> (r: Result<(), FsError>) {
        self.fs.create_dir_all(path)
    }

    fn copy(&mut self, from: &str, to: &str) -> (r: Result<u64, FsError>) {
        match self.fs.copy(from, to) {
            Ok(size) => {
                self.stats.count_file(size);
                Ok(size)
            },
            Err(e) => Err(e),
        }
    }
}

} // verus!
