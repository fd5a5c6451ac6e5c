//! The global guarantees of the registry, stated over the transition
//! relations of [`crate::ledger::Ledger`] and proved once and for all:
//! once-only initialization, the authorization guard, monotonicity of the
//! issuance counter over whole operation traces, and once-only
//! creator-scoped commitment.

use vstd::prelude::*;

use crate::errors::MoatError;
use crate::ledger::BatchCommit;
use crate::ledger::CreatorCommit;
use crate::ledger::Ledger;
use crate::ledger::RegistryEntry;

verus! {

/// One operation of the registry, with the arguments that determine its
/// transition.
pub ghost enum Operation {
    Initialize { caller: Seq<u8>, registry_address: Seq<u8>, nonce: u8 },
    RegisterEntry { caller: Seq<u8>, target_program: Seq<u8>, kind: u8, nonce: u8 },
    CommitBatch { caller: Seq<u8>, merkle_root: Seq<u8>, memo_hash: Seq<u8>, now: i64 },
    CommitBatchCreator {
        creator: Seq<u8>,
        batch_id: u64,
        merkle_root: Seq<u8>,
        memo_hash: Seq<u8>,
        kind: u8,
        now: i64,
    },
}

/// The step relation of the whole state machine: `step(pre, post, op)`
/// holds exactly when one invocation of `op` can take the ledger from
/// `pre` to `post` (whether it succeeds or reports an error). The
/// registry-scoped operations only run against an initialized ledger.
pub open spec fn step(pre: Ledger, post: Ledger, op: Operation) -> bool {
    match op {
        Operation::Initialize { caller, registry_address, nonce } => exists|
            r: Result<(), MoatError>,
        | pre.initialize_transition(post, caller, registry_address, nonce, r),
        Operation::RegisterEntry { caller, target_program, kind, nonce } => pre.spec_initialized()
            && exists|r: Result<RegistryEntry, MoatError>|
            pre.register_entry_transition(post, caller, target_program, kind, nonce, r),
        Operation::CommitBatch { caller, merkle_root, memo_hash, now } => pre.spec_initialized()
            && exists|r: Result<BatchCommit, MoatError>|
            pre.commit_batch_transition(post, caller, merkle_root, memo_hash, now, r),
        Operation::CommitBatchCreator { creator, batch_id, merkle_root, memo_hash, kind, now } => exists|
            r: Result<CreatorCommit, MoatError>,
        |
            pre.commit_batch_creator_transition(
                post,
                creator,
                batch_id,
                merkle_root,
                memo_hash,
                kind,
                now,
                r,
            ),
    }
}

/// A second `initialize` on an already-initialized ledger always fails
/// with `AlreadyInitialized` and leaves the existing state — and every
/// record — unchanged.
pub proof fn lemma_initialize_once(
    pre: Ledger,
    post: Ledger,
    caller: Seq<u8>,
    registry_address: Seq<u8>,
    nonce: u8,
    r: Result<(), MoatError>,
)
    requires
        pre.spec_initialized(),
        pre.initialize_transition(post, caller, registry_address, nonce, r),
    ensures
        r == Err::<(), MoatError>(MoatError::AlreadyInitialized),
        post == pre,
{
}

/// No operation other than `initialize` creates the singleton registry
/// state: a step of any other operation on an uninitialized ledger leaves
/// it uninitialized.
pub proof fn lemma_only_initialize_creates_state(pre: Ledger, post: Ledger, op: Operation)
    requires
        step(pre, post, op),
        !pre.spec_initialized(),
        !(op is Initialize),
    ensures
        !post.spec_initialized(),
{
}

/// A caller whose key differs from the stored administrator key can never
/// successfully register an entry: the call reports `Unauthorized` and
/// changes nothing.
pub proof fn lemma_register_entry_unauthorized(
    pre: Ledger,
    post: Ledger,
    caller: Seq<u8>,
    target_program: Seq<u8>,
    kind: u8,
    nonce: u8,
    r: Result<RegistryEntry, MoatError>,
)
    requires
        caller != pre.admin(),
        pre.register_entry_transition(post, caller, target_program, kind, nonce, r),
    ensures
        r == Err::<RegistryEntry, MoatError>(MoatError::Unauthorized),
        post == pre,
{
}

/// A caller whose key differs from the stored administrator key can never
/// successfully commit a registry-scoped batch: the call reports
/// `Unauthorized` and changes nothing.
pub proof fn lemma_commit_batch_unauthorized(
    pre: Ledger,
    post: Ledger,
    caller: Seq<u8>,
    merkle_root: Seq<u8>,
    memo_hash: Seq<u8>,
    now: i64,
    r: Result<BatchCommit, MoatError>,
)
    requires
        caller != pre.admin(),
        pre.commit_batch_transition(post, caller, merkle_root, memo_hash, now, r),
    ensures
        r == Err::<BatchCommit, MoatError>(MoatError::Unauthorized),
        post == pre,
{
}

/// One step never decreases the issuance counter.
pub proof fn lemma_step_next_id_monotonic(pre: Ledger, post: Ledger, op: Operation)
    requires
        step(pre, post, op),
    ensures
        post.next_id() >= pre.next_id(),
{
}

/// The issuance counter is monotonically non-decreasing across any
/// sequence of operations: along a trace where each consecutive pair of
/// states is related by a step, a later state never holds a smaller
/// counter than an earlier one.
pub proof fn lemma_trace_next_id_monotonic(
    states: Seq<Ledger>,
    ops: Seq<Operation>,
    i: int,
    j: int,
)
    requires
        states.len() == ops.len() + 1,
        forall|k: int| 0 <= k < ops.len() ==> #[trigger] step(states[k], states[k + 1], ops[k]),
        0 <= i <= j < states.len(),
    ensures
        states[i].next_id() <= states[j].next_id(),
    decreases j - i,
{
    if i < j {
        lemma_trace_next_id_monotonic(states, ops, i, j - 1);
        assert(step(states[j - 1], states[j - 1 + 1], ops[j - 1]));
        lemma_step_next_id_monotonic(states[j - 1], states[j], ops[j - 1]);
    }
}

/// Records are append-only and immutable: after any step, every record
/// the ledger already held is still there, unchanged, at its index.
pub proof fn lemma_step_append_only(pre: Ledger, post: Ledger, op: Operation)
    requires
        step(pre, post, op),
    ensures
        pre.entries@.is_prefix_of(post.entries@),
        pre.commits@.is_prefix_of(post.commits@),
        pre.creator_commits@.is_prefix_of(post.creator_commits@),
{
}

/// The administrator key never changes after creation, and the singleton
/// state, once created, never disappears.
pub proof fn lemma_step_admin_stable(pre: Ledger, post: Ledger, op: Operation)
    requires
        step(pre, post, op),
        pre.spec_initialized(),
    ensures
        post.spec_initialized(),
        post.admin() == pre.admin(),
{
}

/// Identifiers are never reissued: a well-formed ledger holds no two
/// entries with the same identifier, no two registry-scoped commitments
/// with the same identifier, and no entry sharing one with a commitment.
pub proof fn lemma_ids_unique(l: Ledger)
    requires
        l.wf(),
    ensures
        forall|i: int, j: int|
            0 <= i < l.entries@.len() && 0 <= j < l.entries@.len() && i != j ==> (
            #[trigger] l.entries@[i]).id != (#[trigger] l.entries@[j]).id,
        forall|i: int, j: int|
            0 <= i < l.commits@.len() && 0 <= j < l.commits@.len() && i != j ==> (
            #[trigger] l.commits@[i]).id != (#[trigger] l.commits@[j]).id,
        forall|i: int, j: int|
            0 <= i < l.entries@.len() && 0 <= j < l.commits@.len() ==> (
            #[trigger] l.entries@[i]).id != (#[trigger] l.commits@[j]).id,
{
}

/// A creator-scoped commitment succeeds at most once per
/// `(creator, batch id)` pair: after one success, a second attempt with
/// the same pair — whatever its payload — fails with `BatchAlreadyExists`
/// and leaves the first record, and everything else, unchanged.
pub proof fn lemma_commit_batch_creator_once(
    pre: Ledger,
    mid: Ledger,
    post: Ledger,
    creator: Seq<u8>,
    batch_id: u64,
    merkle_root1: Seq<u8>,
    memo_hash1: Seq<u8>,
    kind1: u8,
    now1: i64,
    r1: Result<CreatorCommit, MoatError>,
    merkle_root2: Seq<u8>,
    memo_hash2: Seq<u8>,
    kind2: u8,
    now2: i64,
    r2: Result<CreatorCommit, MoatError>,
)
    requires
        pre.commit_batch_creator_transition(
            mid,
            creator,
            batch_id,
            merkle_root1,
            memo_hash1,
            kind1,
            now1,
            r1,
        ),
        r1 is Ok,
        mid.commit_batch_creator_transition(
            post,
            creator,
            batch_id,
            merkle_root2,
            memo_hash2,
            kind2,
            now2,
            r2,
        ),
    ensures
        r2 == Err::<CreatorCommit, MoatError>(MoatError::BatchAlreadyExists),
        post == mid,
{
    let n = mid.creator_commits@.len() - 1;
    assert(mid.creator_commits@[n].creator@ == creator
        && mid.creator_commits@[n].batch_id == batch_id);
    assert(mid.taken(creator, batch_id));
}

} // verus!
