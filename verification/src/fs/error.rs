//! The error model of the filesystem abstraction.
//!
//! An error is a classification of its root cause plus a trail of context
//! frames. A frame names the operation that failed and the path or paths
//! it was given; decorators append frames on the way out, so the root
//! cause stays inspectable while every layer's context is kept.

use vstd::prelude::*;

verus! {

/// Classification of an error's root cause.
#[derive(Clone, Copy, Debug, PartialEq, Eq, Structural)]
pub enum ErrorKind {
    /// A raw storage error: permission, not-found, disk-full.
    Io,
    /// No parent directory is resolvable for a path.
    PathNoParent,
    /// A simulated copy would land on an object that already exists.
    AlreadyExists,
    /// A forced copy-on-write clone on a volume that cannot do one.
    ReflinkUnsupported,
}

/// The operation a context frame speaks of.
#[derive(Clone, Copy, Debug, PartialEq, Eq, Structural)]
pub enum FsOp {
    CreateDirAll,
    ReadMetadata,
    CopyFile,
    Reflink,
}

/// One context frame: an operation and the paths it was given.
#[derive(Debug)]
pub struct ErrorFrame {
    pub op: FsOp,
    pub paths: Vec<String>,
}

/// What a context frame says, as spec code sees it.
pub struct FrameModel {
    pub op: FsOp,
    pub paths: Seq<Seq<char>>,
}

impl View for ErrorFrame {
    type V = FrameModel;

    open spec fn view(&self) -> FrameModel {
        FrameModel { op: self.op, paths: self.paths.deep_view() }
    }
}

impl DeepView for ErrorFrame {
    type V = FrameModel;

    open spec fn deep_view(&self) -> FrameModel {
        self.view()
    }
}

impl ErrorFrame {
    /// A frame for an operation on one path.
    pub fn for_path(op: FsOp, path: String) -> (r: ErrorFrame)
        ensures
            r@.op == op,
            r@.paths == seq![path@],
    {
        let paths = vec![path];
        assert(paths.deep_view() =~= seq![paths@[0]@]);
        ErrorFrame { op, paths }
    }

    /// A frame for an operation on a pair of paths (a source and a target).
    pub fn for_pair(op: FsOp, from: String, to: String) -> (r: ErrorFrame)
        ensures
            r@.op == op,
            r@.paths == seq![from@, to@],
    {
        let paths = vec![from, to];
        assert(paths.deep_view() =~= seq![paths@[0]@, paths@[1]@]);
        ErrorFrame { op, paths }
    }

    pub fn op(&self) -> (r: FsOp)
        ensures
            r == self@.op,
    {
        self.op
    }

    pub fn path_count(&self) -> (r: usize)
        ensures
            r == self@.paths.len(),
    {
        self.paths.len()
    }

    pub fn path_at(&self, i: usize) -> (r: &String)
        requires
            i < self@.paths.len(),
        ensures
            r@ == self@.paths[i as int],
    {
        &self.paths[i]
    }
}

/// The model of a fallible operation's outcome: the value on success, the
/// error's model on failure.
pub open spec fn res_model<A>(r: Result<A, FsError>) -> Result<A, ErrorModel> {
    match r {
        Ok(a) => Ok(a),
        Err(e) => Err(e@),
    }
}

/// An error of the filesystem abstraction: the root cause's kind, the
/// raw cause's text where a base adapter had one, and the trail of
/// context frames, innermost first.
#[derive(Debug)]
pub struct FsError {
    pub kind: ErrorKind,
    pub detail: Option<String>,
    pub frames: Vec<ErrorFrame>,
}

/// What an error says, as spec code sees it.
pub struct ErrorModel {
    pub kind: ErrorKind,
    pub detail: Option<Seq<char>>,
    pub frames: Seq<FrameModel>,
}

impl View for FsError {
    type V = ErrorModel;

    open spec fn view(&self) -> ErrorModel {
        ErrorModel {
            kind: self.kind,
            detail: self.detail.deep_view(),
            frames: self.frames.deep_view(),
        }
    }
}

impl FsError {
    /// A bare error: a kind, no raw cause and no context.
    pub fn bare(kind: ErrorKind) -> (r: FsError)
        ensures
            r@.kind == kind,
            r@.detail is None,
            r@.frames == Seq::<FrameModel>::empty(),
    {
        let e = FsError { kind, detail: None, frames: Vec::new() };
        assert(e.frames.deep_view() =~= Seq::<FrameModel>::empty());
        e
    }

    /// An error carrying the raw cause's text, as a base adapter over
    /// real storage reports it.
    pub fn with_detail(kind: ErrorKind, detail: String) -> (r: FsError)
        ensures
            r@.kind == kind,
            r@.detail == Some(detail@),
            r@.frames == Seq::<FrameModel>::empty(),
    {
        let e = FsError { kind, detail: Some(detail), frames: Vec::new() };
        assert(e.frames.deep_view() =~= Seq::<FrameModel>::empty());
        e
    }

    /// An error born with one context frame and no raw cause.
    pub fn with_frame(kind: ErrorKind, frame: ErrorFrame) -> (r: FsError)
        ensures
            r@.kind == kind,
            r@.detail is None,
            r@.frames == seq![frame@],
    {
        let frames = vec![frame];
        assert(frames.deep_view() =~= seq![frames@[0]@]);
        FsError { kind, detail: None, frames }
    }

    /// The same error with one more context frame appended; the root
    /// cause's kind and text and the earlier frames are kept untouched.
    pub fn pushed(self, frame: ErrorFrame) -> (r: FsError)
        ensures
            r@.kind == self@.kind,
            r@.detail == self@.detail,
            r@.frames == self@.frames.push(frame@),
    {
        let ghost gframe = frame@;
        let FsError { kind, detail, mut frames } = self;
        let ghost pre = frames.deep_view();
        frames.push(frame);
        assert(frames.deep_view() =~= pre.push(gframe));
        FsError { kind, detail, frames }
    }

    /// The same error under another kind; the raw cause and the context
    /// trail are kept.
    pub fn reclassified(self, kind: ErrorKind) -> (r: FsError)
        ensures
            r@.kind == kind,
            r@.detail == self@.detail,
            r@.frames == self@.frames,
    {
        FsError { kind, detail: self.detail, frames: self.frames }
    }

    pub fn kind(&self) -> (r: ErrorKind)
        ensures
            r == self@.kind,
    {
        self.kind
    }

    /// The raw cause's text, where a base adapter had one.
    pub fn detail(&self) -> (r: &Option<String>)
        ensures
            r.deep_view() == self@.detail,
    {
        &self.detail
    }

    pub fn frame_count(&self) -> (r: usize)
        ensures
            r == self@.frames.len(),
    {
        self.frames.len()
    }

    pub fn frame_at(&self, i: usize) -> (r: &ErrorFrame)
        requires
            i < self@.frames.len(),
        ensures
            r@ == self@.frames[i as int],
    {
        &self.frames[i]
    }
}

} // verus!
