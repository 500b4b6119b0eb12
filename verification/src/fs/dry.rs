//! The dry-run filesystem: simulates mutating operations against a
//! virtual object map instead of real storage.
//!
//! It wraps only a read-only capability, so by construction no call can
//! mutate the wrapped storage; everything it pretends to create lands in
//! the virtual map, which the caller reads at the end for a report.
//! Unlike a real copy, a simulated copy never overwrites: landing on an
//! existing object, real or virtual, is an error.

use vstd::prelude::*;
use crate::fs::{Fs, ReadonlyFs};
use crate::fs::error::{ErrorFrame, ErrorKind, ErrorModel, FrameModel, FsError, FsOp};
use crate::fs::metadata::Metadata;
use crate::fs::path::{parent, parent_of, lemma_parent_shorter};
use crate::fs::table::PathTable;
use vstd::string::StringExecFns;

verus! {

/// One virtual object: its metadata and, for a simulated copy, the
/// source it was copied from (recorded for reporting only).
pub struct DryRec {
    pub meta: Metadata,
    pub source: Option<String>,
}

/// What a virtual object says, as spec code sees it.
pub struct DryRecModel {
    pub meta: Metadata,
    pub source: Option<Seq<char>>,
}

impl DeepView for DryRec {
    type V = DryRecModel;

    open spec fn deep_view(&self) -> DryRecModel {
        DryRecModel { meta: self.meta, source: self.source.deep_view() }
    }
}

/// The virtual object map: path to simulated object.
pub type ObjectMap = PathTable<DryRec>;

/// Whether a simulated `create_dir_all` on `p` succeeds against the
/// combined objects `m`: some member of `p`'s parent chain must already
/// exist to build on; the recursion cannot get past a path without a
/// parent.
pub open spec fn dry_mkdir_ok(m: Map<Seq<char>, Metadata>, p: Seq<char>) -> bool
    decreases p.len(),
    via dry_mkdir_ok_decreases
{
    if m.dom().contains(p) {
        true
    } else {
        match parent_of(p) {
            None => false,
            Some(q) => dry_mkdir_ok(m, q),
        }
    }
}

#[via_fn]
proof fn dry_mkdir_ok_decreases(m: Map<Seq<char>, Metadata>, p: Seq<char>) {
    lemma_parent_shorter(p);
}

/// The paths a simulated `create_dir_all` on `p` adds: the members of
/// `p`'s parent chain down to the first that already exists.
pub open spec fn dry_mkdir_added(m: Map<Seq<char>, Metadata>, p: Seq<char>) -> Set<Seq<char>>
    decreases p.len(),
    via dry_mkdir_added_decreases
{
    if m.dom().contains(p) {
        Set::empty()
    } else {
        match parent_of(p) {
            None => Set::empty(),
            Some(q) => dry_mkdir_added(m, q).insert(p),
        }
    }
}

#[via_fn]
proof fn dry_mkdir_added_decreases(m: Map<Seq<char>, Metadata>, p: Seq<char>) {
    lemma_parent_shorter(p);
}

/// The path a failing simulated `create_dir_all` complains about: the
/// first member of the parent chain that neither exists nor has a
/// parent.
pub open spec fn dry_mkdir_fail_at(m: Map<Seq<char>, Metadata>, p: Seq<char>) -> Seq<char>
    decreases p.len(),
    via dry_mkdir_fail_at_decreases
{
    if m.dom().contains(p) {
        p
    } else {
        match parent_of(p) {
            None => p,
            Some(q) => dry_mkdir_fail_at(m, q),
        }
    }
}

#[via_fn]
proof fn dry_mkdir_fail_at_decreases(m: Map<Seq<char>, Metadata>, p: Seq<char>) {
    lemma_parent_shorter(p);
}

/// Every added path was missing from `m`.
pub proof fn lemma_dry_mkdir_added_new(m: Map<Seq<char>, Metadata>, p: Seq<char>)
    ensures
        forall|k: Seq<char>| dry_mkdir_added(m, p).contains(k) ==> !m.dom().contains(k),
    decreases p.len(),
{
    if !m.dom().contains(p) {
        match parent_of(p) {
            None => {},
            Some(q) => {
                lemma_parent_shorter(p);
                lemma_dry_mkdir_added_new(m, q);
            },
        }
    }
}

/// Every added path is at most as long as the path asked for.
pub proof fn lemma_dry_mkdir_added_len(m: Map<Seq<char>, Metadata>, p: Seq<char>)
    ensures
        forall|k: Seq<char>| dry_mkdir_added(m, p).contains(k) ==> k.len() <= p.len(),
    decreases p.len(),
{
    if !m.dom().contains(p) {
        match parent_of(p) {
            None => {},
            Some(q) => {
                lemma_parent_shorter(p);
                lemma_dry_mkdir_added_len(m, q);
                assert forall|k: Seq<char>|
                    dry_mkdir_added(m, p).contains(k) implies k.len() <= p.len() by {
                    if k != p {
                        assert(dry_mkdir_added(m, q).contains(k));
                    }
                }
            },
        }
    }
}

/// The dry-run decorator: a read-only view of real storage plus the
/// virtual object map.
pub struct DryFs<T> {
    pub fs: T,
    pub objects: ObjectMap,
}

impl<T: ReadonlyFs> DryFs<T> {
    /// The virtual object map's model.
    pub open spec fn virt(&self) -> Map<Seq<char>, DryRecModel> {
        self.objects.model()
    }

    /// The virtual objects' metadata, without provenance.
    pub open spec fn virt_metas(&self) -> Map<Seq<char>, Metadata> {
        self.virt().map_values(|r: DryRecModel| r.meta)
    }

    pub fn new(fs: T, objects: ObjectMap) -> (r: Self)
        ensures
            r == (DryFs { fs, objects }),
    {
        DryFs { fs, objects }
    }

    /// Records a virtual object. A path is recorded at most once per
    /// run: the map is never overwritten.
    pub fn add_object(&mut self, path: String, meta: Metadata, source: Option<String>)
        requires
            old(self).wf(),
            !old(self).virt().dom().contains(path@),
        ensures
            final(self).wf(),
            final(self).fs == old(self).fs,
            final(self).virt() == old(self).virt().insert(
                path@,
                (DryRecModel { meta, source: source.deep_view() }),
            ),
    {
        let ghost gsource = source.deep_view();
        self.objects.set(path, DryRec { meta, source });
    }

    /// The virtual object recorded under `path`, if any.
    pub fn find_object(&self, path: &str) -> (r: Option<&Metadata>)
        requires
            self.wf(),
        ensures
            match r {
                Some(m) => self.virt().dom().contains(path@) && *m == self.virt()[path@].meta,
                None => !self.virt().dom().contains(path@),
            },
    {
        match self.objects.find(path) {
            Some(rec) => Some(&rec.meta),
            None => None,
        }
    }

    /// Simulates `create_dir_all`, depth first, against the combined
    /// view of virtual and real objects.
    fn mkdir_rec(&mut self, path: &str) -> (r: Result<(), FsError>)
        requires
            old(self).wf(),
        ensures
            final(self).wf(),
            final(self).fs == old(self).fs,
            r is Ok <==> dry_mkdir_ok(old(self).objs(), path@),
            r is Ok ==> final(self).virt().dom() =~= old(self).virt().dom().union(
                dry_mkdir_added(old(self).objs(), path@),
            ),
            r is Ok ==> forall|k: Seq<char>|
                old(self).virt().dom().contains(k) ==> final(self).virt()[k] == old(self).virt()[k],
            r is Ok ==> forall|k: Seq<char>|
                dry_mkdir_added(old(self).objs(), path@).contains(k)
                    && !old(self).virt().dom().contains(k) ==> {
                    &&& (#[trigger] final(self).virt()[k]).meta.dir
                    &&& final(self).virt()[k].meta.length == 0
                    &&& !final(self).virt()[k].meta.file
                    &&& !final(self).virt()[k].meta.symlink
                    &&& final(self).virt()[k].source is None
                },
            r matches Err(e) ==> *final(self) == *old(self) && e@.kind == ErrorKind::PathNoParent
                && e@.detail is None && e@.frames == seq![
                (FrameModel {
                    op: FsOp::CreateDirAll,
                    paths: seq![dry_mkdir_fail_at(old(self).objs(), path@)],
                }),
            ],
        decreases path@.len(),
    {
        if self.exists_at(path) {
            return Ok(());
        }
        proof {
            lemma_parent_shorter(path@);
        }
        match parent(path) {
            None => {
                Err(FsError::with_frame(
                    ErrorKind::PathNoParent,
                    ErrorFrame::for_path(FsOp::CreateDirAll, path.to_owned()),
                ))
            },
            Some(par) => {
                match self.mkdir_rec(par) {
                    Err(e) => Err(e),
                    Ok(_) => {
                        proof {
                            lemma_dry_mkdir_added_new(old(self).objs(), path@);
                            lemma_dry_mkdir_added_len(old(self).objs(), par@);
                        }
                        self.add_object(path.to_owned(), Metadata::dummy_folder(), None);
                        Ok(())
                    },
                }
            },
        }
    }
}

impl<T: ReadonlyFs> ReadonlyFs for DryFs<T> {
    /// The combined view: the wrapped storage's objects, overridden by
    /// the virtual ones.
    open spec fn objs(&self) -> Map<Seq<char>, Metadata> {
        self.fs.objs().union_prefer_right(self.virt_metas())
    }

    open spec fn wf(&self) -> bool {
        &&& self.fs.wf()
        &&& self.objects.wf()
    }

    open spec fn spec_name(&self) -> Seq<char> {
        "Dry("@ + self.fs.spec_name() + ")"@
    }

    /// Lookup errors come from the wrapped storage, untouched, and only
    /// for paths with no virtual object.
    open spec fn md_err(&self, path: Seq<char>, e: ErrorModel) -> bool {
        self.fs.md_err(path, e)
    }

    fn name(&self) -> (r: String) {
        let inner = self.fs.name();
        "Dry(".to_owned().concat(inner.as_str()).concat(")")
    }

    fn metadata(&self, path: &str) -> (r: Result<Metadata, FsError>) {
        match self.find_object(path) {
            Some(m) => Ok(*m),
            None => self.fs.metadata(path),
        }
    }

    fn exists_at(&self, path: &str) -> (r: bool) {
        self.objects.contains(path) || self.fs.exists_at(path)
    }
}

impl<T: ReadonlyFs> Fs for DryFs<T> {
    /// Succeeds exactly when some member of the parent chain already
    /// exists, virtual or real; the missing members down to it become
    /// virtual directory records with no provenance. The wrapped
    /// storage is never touched. A failure names the path the recursion
    /// could not get past, and changes nothing.
    open spec fn cda_post(pre: Self, post: Self, path: Seq<char>, r: Result<(), ErrorModel>) -> bool {
        match r {
            Ok(_) => {
                &&& dry_mkdir_ok(pre.objs(), path)
                &&& post.fs == pre.fs
                &&& post.virt().dom() == pre.virt().dom().union(dry_mkdir_added(pre.objs(), path))
                &&& forall|k: Seq<char>|
                    pre.virt().dom().contains(k) ==> post.virt()[k] == pre.virt()[k]
                &&& forall|k: Seq<char>|
                    dry_mkdir_added(pre.objs(), path).contains(k) ==> {
                        &&& (#[trigger] post.virt()[k]).meta.dir
                        &&& post.virt()[k].meta.length == 0
                        &&& !post.virt()[k].meta.file
                        &&& !post.virt()[k].meta.symlink
                        &&& post.virt()[k].source is None
                    }
            },
            Err(e) => {
                &&& !dry_mkdir_ok(pre.objs(), path)
                &&& post == pre
                &&& e.kind == ErrorKind::PathNoParent
                &&& e.detail is None
                &&& e.frames == seq![
                    FrameModel {
                        op: FsOp::CreateDirAll,
                        paths: seq![dry_mkdir_fail_at(pre.objs(), path)],
                    },
                ]
            },
        }
    }

    /// Fails when the target already exists, virtual or real, and then
    /// changes nothing; otherwise records a virtual object at the
    /// target carrying the source's metadata and the source path as
    /// provenance, and returns the source's logical length without
    /// touching bytes. The wrapped storage is never touched.
    open spec fn copy_post(pre: Self, post: Self, from: Seq<char>, to: Seq<char>, r: Result<
        u64,
        ErrorModel,
    >) -> bool {
        match r {
            Ok(s) => {
                &&& !pre.objs().dom().contains(to)
                &&& pre.objs().dom().contains(from)
                &&& s == pre.objs()[from].length
                &&& post.fs == pre.fs
                &&& post.virt() == pre.virt().insert(
                    to,
                    (DryRecModel { meta: pre.objs()[from], source: Some(from) }),
                )
            },
            Err(e) => {
                &&& post == pre
                &&& if pre.objs().dom().contains(to) {
                    &&& e.kind == ErrorKind::AlreadyExists
                    &&& e.detail is None
                    &&& e.frames == seq![(FrameModel { op: FsOp::CopyFile, paths: seq![to] })]
                } else {
                    &&& !pre.objs().dom().contains(from)
                    &&& pre.md_err(from, e)
                }
            },
        }
    }

    fn create_dir_all(&mut self, path: &str) -> (r: Result<(), FsError>) {
        let r = self.mkdir_rec(path);
        proof {
            lemma_dry_mkdir_added_new(old(self).objs(), path@);
            assert forall|k: Seq<char>|
                dry_mkdir_added(old(self).objs(), path@).contains(k) implies !old(self).virt().dom()
                .contains(k) by {
                assert(!old(self).objs().dom().contains(k));
                if old(self).virt().dom().contains(k) {
                    assert(old(self).virt_metas().dom().contains(k));
                    assert(old(self).objs().dom().contains(k));
                }
            }
            if r is Ok {
                assert(self.virt().dom() =~= old(self).virt().dom().union(
                    dry_mkdir_added(old(self).objs(), path@),
                ));
                assert forall|k: Seq<char>|
                    old(self).objs().dom().contains(k) implies #[trigger] self.objs().dom()
                    .contains(k) && self.objs()[k] == old(self).objs()[k] by {
                    if old(self).virt().dom().contains(k) {
                        assert(self.virt()[k] == old(self).virt()[k]);
                    } else {
                        assert(!dry_mkdir_added(old(self).objs(), path@).contains(k));
                        assert(!self.virt().dom().contains(k));
                    }
                }
                assert(old(self).objs().submap_of(self.objs()));
                if !old(self).objs().dom().contains(path@) {
                    assert(dry_mkdir_added(old(self).objs(), path@).contains(path@));
                    assert(self.virt().dom().contains(path@));
                }
                assert(self.objs().dom().contains(path@));
            }
        }
        r
    }

    fn copy(&mut self, from: &str, to: &str) -> (r: Result<u64, FsError>) {
        if self.exists_at(to) {
            return Err(FsError::with_frame(
                ErrorKind::AlreadyExists,
                ErrorFrame::for_path(FsOp::CopyFile, to.to_owned()),
            ));
        }
        let meta = match self.metadata(from) {
            Ok(m) => m,
            Err(e) => {
                return Err(e);
            },
        };
        let length = meta.len();
        self.add_object(to.to_owned(), meta, Some(from.to_owned()));
        Ok(length)
    }
}

} // verus!
