//! A layered filesystem abstraction: a small capability interface for
//! filesystem operations, and composable decorators that add
//! cross-cutting behavior — contextual error reporting, usage
//! statistics, a virtual "dry run" filesystem, and an adaptive
//! copy-on-write optimization with graceful fallback.
//!
//! Callers hold one object built by nesting decorators around a base
//! adapter, for example `StatFs(DryFs(ErrorContextFs(...)))`. Each call
//! threads through the chain from outermost to innermost; only the
//! innermost adapter touches storage, and in a dry run none does.
//!
//! Every filesystem's behavior is stated against its model: a map from
//! paths (as character sequences) to [`metadata::Metadata`] records.
//! The interface traits carry the guarantees common to every adapter;
//! each adapter's own behavior is pinned down by the `..._post` spec
//! functions it defines.

pub mod cow;
pub mod dry;
pub mod error;
pub mod mem;
pub mod metadata;
pub mod path;
pub mod stat;
pub mod table;

use vstd::prelude::*;
use vstd::string::StringExecFns;
use crate::fs::error::{ErrorFrame, ErrorModel, FrameModel, FsError, FsOp, res_model};
use crate::fs::metadata::Metadata;

verus! {

/// The read-only capability: diagnostic identity, metadata lookup and an
/// existence check. Any full filesystem also satisfies it, so read-only
/// consumers can be handed a narrower capability.
pub trait ReadonlyFs: Sized {
    /// The filesystem's model: which paths exist, and with what metadata.
    /// The default stands for an adapter outside the verifier's reach,
    /// of which nothing is promised.
    open spec fn objs(&self) -> Map<Seq<char>, Metadata> {
        Map::empty()
    }

    /// The adapter's internal invariant. The default is `false`: of an
    /// adapter outside the verifier's reach no invariant is known, so
    /// every contract conditioned on it promises nothing.
    open spec fn wf(&self) -> bool {
        false
    }

    /// The diagnostic name; a decorator's name embeds its inner's name.
    open spec fn spec_name(&self) -> Seq<char> {
        Seq::empty()
    }

    /// What this adapter's `metadata` promises of an error it returns.
    open spec fn md_err(&self, path: Seq<char>, e: ErrorModel) -> bool {
        true
    }

    /// The diagnostic identity of the adapter chain.
    fn name(&self) -> (r: String)
        ensures
            r@ == self.spec_name(),
    ;

    /// The metadata of the object at `path`; an error exactly when no
    /// such object exists.
    fn metadata(&self, path: &str) -> (r: Result<Metadata, FsError>)
        requires
            self.wf(),
        ensures
            match r {
                Ok(m) => self.objs().dom().contains(path@) && m == self.objs()[path@],
                Err(e) => !self.objs().dom().contains(path@) && self.md_err(path@, e@),
            },
    ;

    /// Whether an object exists at `path`. Never fails: any underlying
    /// error collapses to `false`, by design.
    fn exists_at(&self, path: &str) -> (r: bool)
        requires
            self.wf(),
        ensures
            r == self.objs().dom().contains(path@),
    ;
}

/// The full capability: the read-only operations plus directory creation
/// and copying. What an operation does beyond the guarantees spelled out
/// here is stated by each adapter's `cda_post` and `copy_post`.
pub trait Fs: ReadonlyFs {
    /// What this adapter's `create_dir_all` did, beyond the guarantees
    /// every adapter gives. The default stands for an adapter outside
    /// the verifier's reach, of which nothing is promised.
    open spec fn cda_post(pre: Self, post: Self, path: Seq<char>, r: Result<(), ErrorModel>) -> bool {
        true
    }

    /// What this adapter's `copy` did, beyond the guarantees every
    /// adapter gives.
    open spec fn copy_post(pre: Self, post: Self, from: Seq<char>, to: Seq<char>, r: Result<
        u64,
        ErrorModel,
    >) -> bool {
        true
    }

    /// Creates the directory at `path` and all its missing ancestors.
    /// On success the path exists; on failure nothing changed.
    fn create_dir_all(&mut self, path: &str) -> (r: Result<(), FsError>)
        requires
            old(self).wf(),
        ensures
            final(self).wf(),
            final(self).spec_name() == old(self).spec_name(),
            r is Ok ==> final(self).objs().dom().contains(path@),
            r is Ok ==> old(self).objs().submap_of(final(self).objs()),
            r is Err ==> final(self).objs() == old(self).objs(),
            Self::cda_post(*old(self), *final(self), path@, res_model(r)),
    ;

    /// Copies the object at `from` to `to`, returning the bytes
    /// physically transferred (0 if the copy shared storage instead).
    /// On failure the filesystem's contents are unchanged.
    fn copy(&mut self, from: &str, to: &str) -> (r: Result<u64, FsError>)
        requires
            old(self).wf(),
        ensures
            final(self).wf(),
            final(self).spec_name() == old(self).spec_name(),
            r is Err ==> final(self).objs() == old(self).objs(),
            Self::copy_post(*old(self), *final(self), from@, to@, res_model(r)),
    ;
}

/// Wraps any filesystem; on every failure it appends a context frame
/// naming the operation and the path or paths involved, while keeping
/// the original error's kind and earlier frames for inspection.
/// Successes and the existence check pass through unchanged.
pub struct ErrorContextFs<T>(pub T);

impl<T: Fs> ErrorContextFs<T> {
    pub fn new(t: T) -> (r: Self)
        ensures
            r == (ErrorContextFs(t)),
    {
        ErrorContextFs(t)
    }
}

/// The frame this decorator appends for a one-path operation.
pub open spec fn ctx_frame_one(op: FsOp, path: Seq<char>) -> FrameModel {
    FrameModel { op, paths: seq![path] }
}

/// The frame this decorator appends for a source-and-target operation.
pub open spec fn ctx_frame_pair(op: FsOp, from: Seq<char>, to: Seq<char>) -> FrameModel {
    FrameModel { op, paths: seq![from, to] }
}

/// A path just created exists. For any adapter chain and any path, a
/// successful `create_dir_all` makes the chain's own existence check
/// answer `true`: the result can only be an error or `Ok(true)`, never
/// `Ok(false)`.
pub fn create_dir_all_then_exists<F: Fs>(fs: &mut F, path: &str) -> (r: Result<bool, FsError>)
    requires
        old(fs).wf(),
    ensures
        final(fs).wf(),
        r matches Ok(b) ==> b,
{
    match fs.create_dir_all(path) {
        Ok(_) => Ok(fs.exists_at(path)),
        Err(e) => Err(e),
    }
}

impl<T: Fs> ReadonlyFs for ErrorContextFs<T> {
    open spec fn objs(&self) -> Map<Seq<char>, Metadata> {
        self.0.objs()
    }

    open spec fn wf(&self) -> bool {
        self.0.wf()
    }

    open spec fn spec_name(&self) -> Seq<char> {
        "ErrorContextFs("@ + self.0.spec_name() + ")"@
    }

    open spec fn md_err(&self, path: Seq<char>, e: ErrorModel) -> bool {
        &&& e.frames.len() >= 1
        &&& e.frames.last() == ctx_frame_one(FsOp::ReadMetadata, path)
        &&& self.0.md_err(
            path,
            ErrorModel { kind: e.kind, detail: e.detail, frames: e.frames.drop_last() },
        )
    }

    fn name(&self) -> (r: String) {
        let inner = self.0.name();
        "ErrorContextFs(".to_owned().concat(inner.as_str()).concat(")")
    }

    fn metadata(&self, path: &str) -> (r: Result<Metadata, FsError>) {
        match self.0.metadata(path) {
            Ok(m) => Ok(m),
            Err(e) => {
                let ghost ge = e@;
                let e2 = e.pushed(ErrorFrame::for_path(FsOp::ReadMetadata, path.to_owned()));
                proof {
                    assert(e2@.frames.drop_last() =~= ge.frames);
                }
                Err(e2)
            },
        }
    }

    fn exists_at(&self, path: &str) -> (r: bool) {
        self.0.exists_at(path)
    }
}

impl<T: Fs> Fs for ErrorContextFs<T> {
    /// Success passes through; a failure is the inner failure with one
    /// frame appended that names the operation and the path.
    open spec fn cda_post(pre: Self, post: Self, path: Seq<char>, r: Result<(), ErrorModel>) -> bool {
        match r {
            Ok(u) => T::cda_post(pre.0, post.0, path, Ok(u)),
            Err(e) => {
                &&& e.frames.len() >= 1
                &&& e.frames.last() == ctx_frame_one(FsOp::CreateDirAll, path)
                &&& T::cda_post(pre.0, post.0, path, Err(ErrorModel {
                    kind: e.kind,
                    detail: e.detail,
                    frames: e.frames.drop_last(),
                }))
            },
        }
    }

    /// Success passes through; a failure is the inner failure with one
    /// frame appended that names the operation and both paths.
    open spec fn copy_post(pre: Self, post: Self, from: Seq<char>, to: Seq<char>, r: Result<
        u64,
        ErrorModel,
    >) -> bool {
        match r {
            Ok(s) => T::copy_post(pre.0, post.0, from, to, Ok(s)),
            Err(e) => {
                &&& e.frames.len() >= 1
                &&& e.frames.last() == ctx_frame_pair(FsOp::CopyFile, from, to)
                &&& T::copy_post(pre.0, post.0, from, to, Err(ErrorModel {
                    kind: e.kind,
                    detail: e.detail,
                    frames: e.frames.drop_last(),
                }))
            },
        }
    }

    fn create_dir_all(&mut self, path: &str) -> (r: Result<(), FsError>) {
        match self.0.create_dir_all(path) {
            Ok(u) => Ok(u),
            Err(e) => {
                let ghost ge = e@;
                let e2 = e.pushed(ErrorFrame::for_path(FsOp::CreateDirAll, path.to_owned()));
                proof {
                    assert(e2@.frames.drop_last() =~= ge.frames);
                }
                Err(e2)
            },
        }
    }

    fn copy(&mut self, from: &str, to: &str) -> (r: Result<u64, FsError>) {
        match self.0.copy(from, to) {
            Ok(s) => Ok(s),
            Err(e) => {
                let ghost ge = e@;
                let e2 = e.pushed(ErrorFrame::for_pair(
                    FsOp::CopyFile,
                    from.to_owned(),
                    to.to_owned(),
                ));
                proof {
                    assert(e2@.frames.drop_last() =~= ge.frames);
                }
                Err(e2)
            },
        }
    }
}

} // verus!
