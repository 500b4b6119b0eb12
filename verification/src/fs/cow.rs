//! The copy-on-write decorator: opportunistically performs reflink
//! clones instead of full byte copies, with adaptive fallback.
//!
//! The reflink state is a one-way latch: it only ever moves from
//! `ForceReflink` or `ReflinkOrCopy` to `CopyOnly`, never backward, and
//! `ForceReflink` never downgrades at all — forcing is an explicit
//! caller opt-in that reflink must be available. Under `ReflinkOrCopy`,
//! once more than [`MAX_FAILS_COUNT`] clone attempts have failed while
//! none ever succeeded, the chain permanently stops attempting clones.

use vstd::prelude::*;
use crate::fs::{Fs, ReadonlyFs};
use crate::fs::error::{ErrorFrame, ErrorKind, ErrorModel, FrameModel, FsError, FsOp};
use crate::fs::metadata::Metadata;
use vstd::string::StringExecFns;

verus! {

/// What a volume reports about its reflink capability.
#[derive(Clone, Copy, Debug, PartialEq, Eq, Structural)]
pub enum ReflinkSupport {
    Supported,
    Unknown,
    NotSupported,
}

/// The copy strategy: clone and fail hard, clone with fallback, or
/// plain byte copy.
#[derive(Clone, Copy, Debug, PartialEq, Eq, Structural)]
pub enum CowState {
    ForceReflink,
    ReflinkOrCopy,
    CopyOnly,
}

/// How many clone failures, with no success ever, the fallback strategy
/// tolerates before it permanently downgrades to plain copying.
pub const MAX_FAILS_COUNT: u64 = 10;

/// The clone primitive the decorator drives. A method's outcome depends
/// on the volumes behind the paths, so nothing is promised of it; the
/// decorator's own contract states what holds for every outcome.
pub trait Reflinker: Sized {
    /// Clones `from` to `to` without copying bytes, or fails.
    fn reflink(&mut self, from: &str, to: &str) -> Result<(), FsError>;

    /// Clones `from` to `to` if the volume can, otherwise falls back to
    /// a full byte copy itself: `None` means a clone happened, `Some`
    /// carries the bytes a fallback copy wrote.
    fn reflink_or_copy(&mut self, from: &str, to: &str) -> Result<Option<u64>, FsError>;
}

/// A counter that grows by one until it sticks at its maximum.
pub open spec fn sat_inc(x: u64) -> u64 {
    if x < u64::MAX {
        (x + 1) as u64
    } else {
        u64::MAX
    }
}

/// One failed clone under the fallback strategy: the failure counter
/// grows, and the state downgrades permanently when the failures pass
/// the tolerated maximum with no success ever recorded.
pub open spec fn fail_step(state: CowState, successes: u64, fails: u64) -> (CowState, u64) {
    let f = sat_inc(fails);
    if f > MAX_FAILS_COUNT && successes == 0 {
        (CowState::CopyOnly, f)
    } else {
        (state, f)
    }
}

/// The state and failure counter after `n` failed clones in a row.
pub open spec fn after_failures(state: CowState, successes: u64, fails: u64, n: nat) -> (
    CowState,
    u64,
)
    decreases n,
{
    if n == 0 {
        (state, fails)
    } else {
        let prev = after_failures(state, successes, fails, (n - 1) as nat);
        fail_step(prev.0, successes, prev.1)
    }
}

/// The adaptive downgrade, run to its fixed point: starting fresh under
/// the fallback strategy with a clone primitive that always fails, the
/// first `MAX_FAILS_COUNT` failures leave the strategy in place, and
/// from the failure after that the state is `CopyOnly` — permanently,
/// however many more failures follow.
pub proof fn lemma_repeated_failure_latches(n: nat)
    requires
        n <= u64::MAX,
    ensures
        after_failures(CowState::ReflinkOrCopy, 0, 0, n) == if n <= MAX_FAILS_COUNT {
            (CowState::ReflinkOrCopy, n as u64)
        } else {
            (CowState::CopyOnly, n as u64)
        },
    decreases n,
{
    if n > 0 {
        lemma_repeated_failure_latches((n - 1) as nat);
    }
}

///`CopyOnly` is absorbing: no failure leaves it.
pub proof fn lemma_copy_only_absorbing(successes: u64, fails: u64)
    ensures
        fail_step(CowState::CopyOnly, successes, fails).0 == CowState::CopyOnly,
{
}

/// Wraps any filesystem together with a clone primitive, the copy
/// strategy and the clone counters.
pub struct CowFs<T, R> {
    pub fs: T,
    pub linker: R,
    pub state: CowState,
    pub success_reflinks: u64,
    pub failed_reflinks: u64,
}

impl<T: Fs, R: Reflinker> CowFs<T, R> {
    /// A forced-reflink chain when the volume is known to support
    /// clones, a fallback chain when support is unknown. A volume known
    /// not to support clones gets no copy-on-write chain at all.
    pub fn new(fs: T, linker: R, support: ReflinkSupport) -> (r: Self)
        requires
            support != ReflinkSupport::NotSupported,
        ensures
            r.fs == fs,
            r.linker == linker,
            r.state == if support == ReflinkSupport::Supported {
                CowState::ForceReflink
            } else {
                CowState::ReflinkOrCopy
            },
            r.success_reflinks == 0,
            r.failed_reflinks == 0,
    {
        let state = match support {
            ReflinkSupport::Supported => CowState::ForceReflink,
            ReflinkSupport::Unknown => CowState::ReflinkOrCopy,
            ReflinkSupport::NotSupported => CowState::ReflinkOrCopy,
        };
        CowFs { fs, linker, state, success_reflinks: 0, failed_reflinks: 0 }
    }

    /// The copy strategy the chain is in.
    pub fn reflink_state(&self) -> (r: CowState)
        ensures
            r == self.state,
    {
        self.state
    }
}

impl<T: Fs, R: Reflinker> ReadonlyFs for CowFs<T, R> {
    open spec fn objs(&self) -> Map<Seq<char>, Metadata> {
        self.fs.objs()
    }

    open spec fn wf(&self) -> bool {
        &&& self.fs.wf()
        &&& (self.state == CowState::ReflinkOrCopy && self.success_reflinks == 0
            ==> self.failed_reflinks <= MAX_FAILS_COUNT)
    }

    open spec fn spec_name(&self) -> Seq<char> {
        "CoW("@ + self.fs.spec_name() + ")"@
    }

    open spec fn md_err(&self, path: Seq<char>, e: ErrorModel) -> bool {
        self.fs.md_err(path, e)
    }

    fn name(&self) -> (r: String) {
        let inner = self.fs.name();
        "CoW(".to_owned().concat(inner.as_str()).concat(")")
    }

    fn metadata(&self, path: &str) -> (r: Result<Metadata, FsError>) {
        self.fs.metadata(path)
    }

    fn exists_at(&self, path: &str) -> (r: bool) {
        self.fs.exists_at(path)
    }
}

impl<T: Fs, R: Reflinker> Fs for CowFs<T, R> {
    /// Passes through; the clone primitive, strategy and counters are
    /// untouched.
    open spec fn cda_post(pre: Self, post: Self, path: Seq<char>, r: Result<(), ErrorModel>) -> bool {
        &&& T::cda_post(pre.fs, post.fs, path, r)
        &&& post.linker == pre.linker
        &&& post.state == pre.state
        &&& post.success_reflinks == pre.success_reflinks
        &&& post.failed_reflinks == pre.failed_reflinks
    }

    /// What a copy did, by strategy. Under `ForceReflink` only a clone
    /// is attempted: success returns 0 bytes, failure is a hard
    /// `ReflinkUnsupported` error, and nothing else moves. Under
    /// `ReflinkOrCopy`, a clone counts a success and returns 0; a
    /// fallback byte copy counts a failure and takes one `fail_step`,
    /// which is where the permanent downgrade happens; a primitive
    /// error changes nothing. Under `CopyOnly` the call is exactly the
    /// wrapped filesystem's copy, and the clone primitive is not
    /// touched. In every strategy the wrapped filesystem's model only
    /// changes where it performed the copy itself.
    open spec fn copy_post(pre: Self, post: Self, from: Seq<char>, to: Seq<char>, r: Result<
        u64,
        ErrorModel,
    >) -> bool {
        match pre.state {
            CowState::ForceReflink => {
                &&& post.fs == pre.fs
                &&& post.state == pre.state
                &&& post.success_reflinks == pre.success_reflinks
                &&& post.failed_reflinks == pre.failed_reflinks
                &&& match r {
                    Ok(s) => s == 0,
                    Err(e) => {
                        &&& e.kind == ErrorKind::ReflinkUnsupported
                        &&& e.frames.len() >= 1
                        &&& e.frames.last() == (FrameModel {
                            op: FsOp::Reflink,
                            paths: seq![from, to],
                        })
                    },
                }
            },
            CowState::ReflinkOrCopy => {
                &&& post.fs == pre.fs
                &&& match r {
                    Ok(s) => {
                        ||| (s == 0 && post.state == pre.state && post.failed_reflinks
                            == pre.failed_reflinks && post.success_reflinks == sat_inc(
                            pre.success_reflinks,
                        ))
                        ||| (post.success_reflinks == pre.success_reflinks && (
                        post.state,
                        post.failed_reflinks,
                        ) == fail_step(pre.state, pre.success_reflinks, pre.failed_reflinks))
                    },
                    Err(_) => {
                        &&& post.state == pre.state
                        &&& post.success_reflinks == pre.success_reflinks
                        &&& post.failed_reflinks == pre.failed_reflinks
                    },
                }
            },
            CowState::CopyOnly => {
                &&& T::copy_post(pre.fs, post.fs, from, to, r)
                &&& post.linker == pre.linker
                &&& post.state == CowState::CopyOnly
                &&& post.success_reflinks == pre.success_reflinks
                &&& post.failed_reflinks == pre.failed_reflinks
            },
        }
    }

    fn create_dir_all(&mut self, path: &str) -> (r: Result<(), FsError>) {
        self.fs.create_dir_all(path)
    }

    fn copy(&mut self, from: &str, to: &str) -> (r: Result<u64, FsError>) {
        match self.state {
            CowState::ForceReflink => {
                match self.linker.reflink(from, to) {
                    Ok(_) => Ok(0),
                    Err(e) => {
                        Err(e.reclassified(ErrorKind::ReflinkUnsupported).pushed(
                            ErrorFrame::for_pair(FsOp::Reflink, from.to_owned(), to.to_owned()),
                        ))
                    },
                }
            },
            CowState::ReflinkOrCopy => {
                match self.linker.reflink_or_copy(from, to) {
                    Err(e) => Err(e),
                    Ok(None) => {
                        self.success_reflinks = self.success_reflinks.saturating_add(1);
                        Ok(0)
                    },
                    Ok(Some(size)) => {
                        let fails = self.failed_reflinks.saturating_add(1);
                        self.failed_reflinks = fails;
                        if fails > MAX_FAILS_COUNT && self.success_reflinks == 0 {
                            self.state = CowState::CopyOnly;
                        }
                        Ok(size)
                    },
                }
            },
            CowState::CopyOnly => self.fs.copy(from, to),
        }
    }
}

} // verus!
