//! The scratch-directory mutex. The marker file itself lives on the
//! filesystem; this module holds the decision logic of the acquire spin
//! loop and the release step, and a model of the marker protocol under
//! which mutual exclusion is proved.

use vstd::prelude::*;

verus! {

/// What one atomic create-if-absent attempt on the marker file reported.
pub enum AttemptOutcome {
    /// The marker was created: the caller now holds the lock.
    Created,
    /// The marker already existed: another invocation holds the lock.
    AlreadyExists,
    /// Any other failure (for instance, permission denied).
    OtherFailure,
}

/// What the acquire loop does after one attempt.
pub enum LockDecision {
    /// The lock is held; proceed under it.
    Acquired,
    /// Spin and attempt again; there is no wait queue and no timeout.
    Retry,
    /// A failure other than contention is fatal for the build step.
    Fatal,
}

/// One round of the acquire spin loop: only a successful atomic create
/// acquires; an existing marker means retry; anything else aborts.
pub fn acquire_decision(outcome: AttemptOutcome) -> (d: LockDecision)
    ensures
        d is Acquired <==> outcome is Created,
        d is Retry <==> outcome is AlreadyExists,
        d is Fatal <==> outcome is OtherFailure,
{
    match outcome {
        AttemptOutcome::Created => LockDecision::Acquired,
        AttemptOutcome::AlreadyExists => LockDecision::Retry,
        AttemptOutcome::OtherFailure => LockDecision::Fatal,
    }
}

/// What the release step does: a failed marker removal means the
/// invariant "only the holder deletes the marker" was broken, which is
/// fatal rather than papered over.
pub fn release_decision(removed: bool) -> (fatal: bool)
    ensures
        fatal <==> !removed,
{
    !removed
}

/// The marker protocol, modeled: whether the marker file exists, and
/// which invocation (identified by an arbitrary number) holds the lock.
pub struct LockModel {
    pub marker: bool,
    pub holder: Option<int>,
}

/// The protocol invariant: the marker exists exactly while some
/// invocation holds the lock.
pub open spec fn lock_inv(m: LockModel) -> bool {
    m.marker <==> m.holder is Some
}

/// A successful acquire by invocation `p`: possible only while no marker
/// exists, and it installs the marker with `p` as holder. This is the
/// atomic create-if-absent step.
pub open spec fn acquire_transition(pre: LockModel, post: LockModel, p: int) -> bool {
    &&& !pre.marker
    &&& post == (LockModel { marker: true, holder: Some(p) })
}

/// A release by invocation `p`: possible only for the holder, and it
/// removes the marker.
pub open spec fn release_transition(pre: LockModel, post: LockModel, p: int) -> bool {
    &&& pre.holder == Some(p)
    &&& post == (LockModel { marker: false, holder: None::<int> })
}

/// Acquiring preserves the protocol invariant.
pub proof fn lemma_acquire_preserves_inv(pre: LockModel, post: LockModel, p: int)
    requires
        lock_inv(pre),
        acquire_transition(pre, post, p),
    ensures
        lock_inv(post),
        post.holder == Some(p),
{
}

/// Releasing preserves the protocol invariant.
pub proof fn lemma_release_preserves_inv(pre: LockModel, post: LockModel, p: int)
    requires
        lock_inv(pre),
        release_transition(pre, post, p),
    ensures
        lock_inv(post),
        post.holder is None,
{
}

/// Mutual exclusion: while one invocation holds the lock, no acquire by
/// any invocation can succeed, so no second invocation can enter the
/// staging/compile/execute/cleanup cycle — the cycle runs entirely under
/// the lock, and concurrent invocations never observe each other's
/// staged files mid-flight.
pub proof fn lemma_mutual_exclusion(pre: LockModel, post: LockModel, p: int, q: int)
    requires
        lock_inv(pre),
        pre.holder == Some(q),
    ensures
        !acquire_transition(pre, post, p),
{
}

/// At most one holder at a time: holding is a single `Option`, so two
/// distinct invocations can never both hold the lock in one state.
pub proof fn lemma_single_holder(m: LockModel, p: int, q: int)
    requires
        m.holder == Some(p),
        m.holder == Some(q),
    ensures
        p == q,
{
}

/// The scratch directory with its lock: which invocation, if any, has a
/// source file staged in it mid-flight.
pub struct DirState {
    pub lock: LockModel,
    pub staged_by: Option<int>,
}

/// The directory invariant: the lock protocol holds, and a staged file
/// belongs to the current lock holder — staging, compiling and deletion
/// all happen under the lock.
pub open spec fn dir_inv(s: DirState) -> bool {
    &&& lock_inv(s.lock)
    &&& s.staged_by matches Some(p) ==> s.lock.holder == Some(p)
}

/// Invocation `p` stages its source file: only the lock holder may, and
/// only into a directory with no file currently staged.
pub open spec fn stage_transition(pre: DirState, post: DirState, p: int) -> bool {
    &&& pre.lock.holder == Some(p)
    &&& pre.staged_by is None
    &&& post == (DirState { lock: pre.lock, staged_by: Some(p) })
}

/// Invocation `p` deletes its staged file: only the lock holder may.
pub open spec fn delete_transition(pre: DirState, post: DirState, p: int) -> bool {
    &&& pre.lock.holder == Some(p)
    &&& pre.staged_by == Some(p)
    &&& post == (DirState { lock: pre.lock, staged_by: None::<int> })
}

/// Staging and deletion preserve the directory invariant.
pub proof fn lemma_dir_transitions_preserve_inv(pre: DirState, post: DirState, p: int)
    requires
        dir_inv(pre),
        stage_transition(pre, post, p) || delete_transition(pre, post, p),
    ensures
        dir_inv(post),
{
}

/// No invocation observes another's staged file mid-flight: while `p`'s
/// file is staged, `p` holds the lock, so a distinct invocation `q` can
/// neither acquire the lock nor stage or delete anything until `p` has
/// deleted its file and released.
pub proof fn lemma_no_interleaving(pre: DirState, post: DirState, lpost: LockModel, p: int, q: int)
    requires
        dir_inv(pre),
        pre.staged_by == Some(p),
        p != q,
    ensures
        !acquire_transition(pre.lock, lpost, q),
        !stage_transition(pre, post, q),
        !delete_transition(pre, post, q),
{
}

} // verus!
