//! An in-memory base adapter: the leaf of a chain when no real storage
//! is wanted, and the reference model of what a leaf filesystem does.
//!
//! `create_dir_all` creates all missing ancestor directories and
//! succeeds when the target already exists as a directory; `copy`
//! duplicates a file record, overwriting any object at the target and
//! returning the source's byte length.

use vstd::prelude::*;
use crate::fs::{Fs, ReadonlyFs};
use crate::fs::error::{ErrorKind, ErrorModel, FsError};
use crate::fs::metadata::Metadata;
use crate::fs::path::{parent, parent_of, lemma_parent_shorter};
use crate::fs::table::PathTable;

verus! {

impl DeepView for Metadata {
    type V = Metadata;

    open spec fn deep_view(&self) -> Metadata {
        *self
    }
}

/// Whether `create_dir_all` on `p` succeeds against the objects `m`:
/// every member of `p`'s parent chain that already exists must be a
/// directory; everything missing can be created.
pub open spec fn mem_mkdir_ok(m: Map<Seq<char>, Metadata>, p: Seq<char>) -> bool
    decreases p.len(),
    via mem_mkdir_ok_decreases
{
    if m.dom().contains(p) {
        m[p].dir
    } else {
        match parent_of(p) {
            None => true,
            Some(q) => mem_mkdir_ok(m, q),
        }
    }
}

#[via_fn]
proof fn mem_mkdir_ok_decreases(m: Map<Seq<char>, Metadata>, p: Seq<char>) {
    lemma_parent_shorter(p);
}

/// The paths that `create_dir_all` on `p` adds to the objects `m`: the
/// members of `p`'s parent chain that do not exist yet.
pub open spec fn mem_mkdir_added(m: Map<Seq<char>, Metadata>, p: Seq<char>) -> Set<Seq<char>>
    decreases p.len(),
    via mem_mkdir_added_decreases
{
    if m.dom().contains(p) {
        Set::empty()
    } else {
        match parent_of(p) {
            None => set![p],
            Some(q) => mem_mkdir_added(m, q).insert(p),
        }
    }
}

#[via_fn]
proof fn mem_mkdir_added_decreases(m: Map<Seq<char>, Metadata>, p: Seq<char>) {
    lemma_parent_shorter(p);
}

/// Every added path was missing from `m`.
pub proof fn lemma_mem_mkdir_added_new(m: Map<Seq<char>, Metadata>, p: Seq<char>)
    ensures
        forall|k: Seq<char>| mem_mkdir_added(m, p).contains(k) ==> !m.dom().contains(k),
    decreases p.len(),
{
    if !m.dom().contains(p) {
        match parent_of(p) {
            None => {},
            Some(q) => {
                lemma_parent_shorter(p);
                lemma_mem_mkdir_added_new(m, q);
            },
        }
    }
}

/// An in-memory filesystem: a table of path-keyed metadata records.
pub struct MemFs {
    pub table: PathTable<Metadata>,
}

impl MemFs {
    /// An empty in-memory filesystem.
    pub fn new() -> (r: MemFs)
        ensures
            r.objs() == Map::<Seq<char>, Metadata>::empty(),
            r.wf(),
    {
        MemFs { table: PathTable::new() }
    }

    /// Stores a record under a path, replacing any earlier one; the way
    /// a test or a caller seeds the filesystem with files.
    pub fn put(&mut self, path: &str, meta: Metadata)
        requires
            old(self).wf(),
        ensures
            final(self).wf(),
            final(self).objs() == old(self).objs().insert(path@, meta),
    {
        self.table.set(path.to_owned(), meta);
    }

    /// Creates `path` and its missing ancestors, depth first.
    fn mkdir_rec(&mut self, path: &str) -> (r: Result<(), FsError>)
        requires
            old(self).wf(),
        ensures
            final(self).wf(),
            r is Ok <==> mem_mkdir_ok(old(self).objs(), path@),
            r is Ok ==> final(self).objs().dom() =~= old(self).objs().dom().union(
                mem_mkdir_added(old(self).objs(), path@),
            ),
            r is Ok ==> forall|k: Seq<char>|
                old(self).objs().dom().contains(k) ==> final(self).objs().dom().contains(k)
                    && final(self).objs()[k] == old(self).objs()[k],
            r is Ok ==> forall|k: Seq<char>|
                mem_mkdir_added(old(self).objs(), path@).contains(k)
                    && !old(self).objs().dom().contains(k) ==> {
                    &&& (#[trigger] final(self).objs()[k]).dir
                    &&& final(self).objs()[k].length == 0
                    &&& !final(self).objs()[k].file
                    &&& !final(self).objs()[k].symlink
                },
            r matches Err(e) ==> *final(self) == *old(self) && e@.kind == ErrorKind::Io
                && e@.detail is None && e@.frames.len() == 0,
        decreases path@.len(),
    {
        match self.table.find(path) {
            Some(m) => {
                if m.is_dir() {
                    Ok(())
                } else {
                    Err(FsError::bare(ErrorKind::Io))
                }
            },
            None => {
                proof {
                    lemma_parent_shorter(path@);
                }
                match parent(path) {
                    None => {
                        let meta = Metadata::dummy_folder();
                        self.table.set(path.to_owned(), meta);
                        Ok(())
                    },
                    Some(par) => {
                        match self.mkdir_rec(par) {
                            Err(e) => Err(e),
                            Ok(_) => {
                                proof {
                                    lemma_mem_mkdir_added_new(old(self).objs(), path@);
                                }
                                let meta = Metadata::dummy_folder();
                                self.table.set(path.to_owned(), meta);
                                Ok(())
                            },
                        }
                    },
                }
            },
        }
    }
}

impl ReadonlyFs for MemFs {
    open spec fn objs(&self) -> Map<Seq<char>, Metadata> {
        self.table.model()
    }

    open spec fn wf(&self) -> bool {
        self.table.wf()
    }

    open spec fn spec_name(&self) -> Seq<char> {
        "MemFs"@
    }

    open spec fn md_err(&self, path: Seq<char>, e: ErrorModel) -> bool {
        &&& e.kind == ErrorKind::Io
        &&& e.detail is None
        &&& e.frames.len() == 0
    }

    fn name(&self) -> (r: String) {
        "MemFs".to_owned()
    }

    fn metadata(&self, path: &str) -> (r: Result<Metadata, FsError>) {
        match self.table.find(path) {
            Some(m) => Ok(*m),
            None => Err(FsError::bare(ErrorKind::Io)),
        }
    }

    fn exists_at(&self, path: &str) -> (r: bool) {
        self.table.contains(path)
    }
}

impl Fs for MemFs {
    /// Succeeds exactly when every existing member of the parent chain
    /// is a directory; the missing members are added as fresh empty
    /// directories and nothing else changes. A failure is a bare
    /// storage error and leaves the filesystem as it was.
    open spec fn cda_post(pre: Self, post: Self, path: Seq<char>, r: Result<(), ErrorModel>) -> bool {
        match r {
            Ok(_) => {
                &&& mem_mkdir_ok(pre.objs(), path)
                &&& post.objs().dom() == pre.objs().dom().union(mem_mkdir_added(pre.objs(), path))
                &&& forall|k: Seq<char>|
                    pre.objs().dom().contains(k) ==> post.objs()[k] == pre.objs()[k]
                &&& forall|k: Seq<char>|
                    mem_mkdir_added(pre.objs(), path).contains(k) ==> {
                        &&& (#[trigger] post.objs()[k]).dir
                        &&& post.objs()[k].length == 0
                        &&& !post.objs()[k].file
                        &&& !post.objs()[k].symlink
                    }
            },
            Err(e) => {
                &&& !mem_mkdir_ok(pre.objs(), path)
                &&& post == pre
                &&& e.kind == ErrorKind::Io
                &&& e.detail is None
                &&& e.frames.len() == 0
            },
        }
    }

    /// Succeeds exactly when the source exists and is a file; the target
    /// record becomes a file of the source's length and timestamp,
    /// overwriting any earlier object there, and the returned size is
    /// the source's length. A failure is a bare storage error and
    /// leaves the filesystem as it was.
    open spec fn copy_post(pre: Self, post: Self, from: Seq<char>, to: Seq<char>, r: Result<
        u64,
        ErrorModel,
    >) -> bool {
        match r {
            Ok(s) => {
                &&& pre.objs().dom().contains(from)
                &&& pre.objs()[from].file
                &&& s == pre.objs()[from].length
                &&& post.objs() == pre.objs().insert(to, (Metadata {
                    length: s,
                    mtime: pre.objs()[from].mtime,
                    dir: false,
                    file: true,
                    symlink: false,
                }))
            },
            Err(e) => {
                &&& !(pre.objs().dom().contains(from) && pre.objs()[from].file)
                &&& post == pre
                &&& e.kind == ErrorKind::Io
                &&& e.detail is None
                &&& e.frames.len() == 0
            },
        }
    }

    fn create_dir_all(&mut self, path: &str) -> (r: Result<(), FsError>) {
        let r = self.mkdir_rec(path);
        proof {
            lemma_mem_mkdir_added_new(old(self).objs(), path@);
            if r is Ok {
                assert(self.objs().dom() =~= old(self).objs().dom().union(
                    mem_mkdir_added(old(self).objs(), path@),
                ));
            }
        }
        r
    }

    fn copy(&mut self, from: &str, to: &str) -> (r: Result<u64, FsError>) {
        let src = match self.table.find(from) {
            Some(m) => *m,
            None => {
                return Err(FsError::bare(ErrorKind::Io));
            },
        };
        if !src.is_file() {
            return Err(FsError::bare(ErrorKind::Io));
        }
        let length = src.len();
        let meta = Metadata::new(length, src.modified(), false, true, false);
        self.table.set(to.to_owned(), meta);
        Ok(length)
    }
}

} // verus!
