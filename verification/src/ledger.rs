//! The record-allocation state machine: a singleton registry state guarded
//! by one administrator key, a 64-bit monotonic issuance counter, and three
//! kinds of append-only, immutable records.
//!
//! Every operation is a single all-or-nothing transition: it either appends
//! exactly one record (advancing the counter where the record is
//! counter-addressed) or reports one error and changes nothing.

use vstd::prelude::*;

use crate::arith::checked_increment;
use crate::arith::narrow_to_u32;
use crate::errors::MoatError;
use crate::keys::key_eq;

verus! {

/// The singleton registry record: the administrator key, the next free
/// sequence number, and the address nonce fixed when it was created.
#[derive(Clone, Copy, Debug, PartialEq, Eq)]
pub struct RegistryState {
    pub admin: [u8; 32],
    pub next_id: u64,
    pub bump: u8,
}

/// A registered reference to an external target, keyed by the registry
/// address and a 32-bit identifier narrowed from the issuance counter.
#[derive(Clone, Copy, Debug, PartialEq, Eq)]
pub struct RegistryEntry {
    pub registry: [u8; 32],
    pub id: u32,
    pub admin: [u8; 32],
    pub target_program: [u8; 32],
    pub kind: u8,
    pub bump: u8,
}

/// A registry-scoped batch commitment, keyed by the full 64-bit counter
/// value at issuance.
#[derive(Clone, Copy, Debug, PartialEq, Eq)]
pub struct BatchCommit {
    pub id: u64,
    pub admin: [u8; 32],
    pub merkle_root: [u8; 32],
    pub memo_hash: [u8; 32],
    pub created_at: i64,
}

/// A creator-scoped batch commitment: keyed by the committing key and a
/// caller-chosen batch identifier, with no administrator involved.
#[derive(Clone, Copy, Debug, PartialEq, Eq)]
pub struct CreatorCommit {
    pub creator: [u8; 32],
    pub batch_id: u64,
    pub kind: u8,
    pub merkle_root: [u8; 32],
    pub memo_hash: [u8; 32],
    pub created_at: i64,
}

/// The whole ledger: the optional singleton state plus the three
/// append-only record stores.
pub struct Ledger {
    pub state: Option<RegistryState>,
    pub registry_address: [u8; 32],
    pub entries: Vec<RegistryEntry>,
    pub commits: Vec<BatchCommit>,
    pub creator_commits: Vec<CreatorCommit>,
}

impl Ledger {
    /// Whether the singleton registry state has been created.
    pub open spec fn spec_initialized(self) -> bool {
        self.state is Some
    }

    /// The stored administrator key, as bytes.
    pub open spec fn admin(self) -> Seq<u8> {
        match self.state {
            Some(s) => s.admin@,
            None => Seq::empty(),
        }
    }

    /// The next free sequence number; zero before initialization.
    pub open spec fn next_id(self) -> u64 {
        match self.state {
            Some(s) => s.next_id,
            None => 0,
        }
    }

    /// The address nonce fixed when the singleton was created.
    pub open spec fn state_bump(self) -> u8 {
        match self.state {
            Some(s) => s.bump,
            None => 0,
        }
    }

    /// Whether a creator-scoped commitment exists for this
    /// `(creator, batch id)` pair.
    pub open spec fn taken(self, creator: Seq<u8>, batch_id: u64) -> bool {
        exists|i: int|
            0 <= i < self.creator_commits@.len() && (#[trigger] self.creator_commits@[i]).creator@
                == creator && self.creator_commits@[i].batch_id == batch_id
    }

    /// Well-formedness: records are only ever appended together with a
    /// counter step, identifiers are issued in strictly increasing order
    /// below the counter, an entry and a commit never share an identifier,
    /// and creator-scoped commitments are unique per `(creator, batch id)`.
    pub open spec fn wf(self) -> bool {
        &&& (!self.spec_initialized() ==> self.entries@.len() == 0 && self.commits@.len() == 0)
        &&& self.entries@.len() + self.commits@.len() == self.next_id()
        &&& (forall|i: int|
            0 <= i < self.entries@.len() ==> (#[trigger] self.entries@[i]).id < self.next_id())
        &&& (forall|i: int, j: int|
            0 <= i < j < self.entries@.len() ==> self.entries@[i].id < self.entries@[j].id)
        &&& (forall|i: int|
            0 <= i < self.commits@.len() ==> (#[trigger] self.commits@[i]).id < self.next_id())
        &&& (forall|i: int, j: int|
            0 <= i < j < self.commits@.len() ==> self.commits@[i].id < self.commits@[j].id)
        &&& (forall|i: int, j: int|
            0 <= i < self.entries@.len() && 0 <= j < self.commits@.len() ==> (
            #[trigger] self.entries@[i]).id != (#[trigger] self.commits@[j]).id)
        &&& (forall|i: int, j: int|
            0 <= i < j < self.creator_commits@.len() ==> !((#[trigger] self.creator_commits@[i]).creator@
                == (#[trigger] self.creator_commits@[j]).creator@
                && self.creator_commits@[i].batch_id == self.creator_commits@[j].batch_id))
    }

    /// What one `initialize` call does: on a fresh ledger it creates the
    /// singleton with the caller as administrator and the counter at zero;
    /// on an initialized ledger it fails and changes nothing.
    pub open spec fn initialize_transition(
        self,
        post: Ledger,
        caller: Seq<u8>,
        registry_address: Seq<u8>,
        nonce: u8,
        r: Result<(), MoatError>,
    ) -> bool {
        if self.spec_initialized() {
            &&& r == Err::<(), MoatError>(MoatError::AlreadyInitialized)
            &&& post == self
        } else {
            &&& r == Ok::<(), MoatError>(())
            &&& post.spec_initialized()
            &&& post.admin() == caller
            &&& post.next_id() == 0
            &&& post.state_bump() == nonce
            &&& post.registry_address@ == registry_address
            &&& post.entries@ == self.entries@
            &&& post.commits@ == self.commits@
            &&& post.creator_commits@ == self.creator_commits@
        }
    }

    /// What one `register_entry` call does: with the administrator's key
    /// and a counter that still fits 32 bits, it appends exactly one entry
    /// carrying the narrowed counter value and advances the counter by one;
    /// otherwise it fails with the matching error and changes nothing.
    pub open spec fn register_entry_transition(
        self,
        post: Ledger,
        caller: Seq<u8>,
        target_program: Seq<u8>,
        kind: u8,
        nonce: u8,
        r: Result<RegistryEntry, MoatError>,
    ) -> bool {
        if caller != self.admin() {
            &&& r == Err::<RegistryEntry, MoatError>(MoatError::Unauthorized)
            &&& post == self
        } else if self.next_id() > u32::MAX {
            &&& r == Err::<RegistryEntry, MoatError>(MoatError::NextIdOverflow)
            &&& post == self
        } else {
            &&& r matches Ok(e) && {
                &&& e.registry@ == self.registry_address@
                &&& e.id == self.next_id()
                &&& e.admin@ == caller
                &&& e.target_program@ == target_program
                &&& e.kind == kind
                &&& e.bump == nonce
                &&& post.entries@ == self.entries@.push(e)
            }
            &&& post.commits@ == self.commits@
            &&& post.creator_commits@ == self.creator_commits@
            &&& post.spec_initialized()
            &&& post.admin() == self.admin()
            &&& post.next_id() == self.next_id() + 1
            &&& post.state_bump() == self.state_bump()
            &&& post.registry_address@ == self.registry_address@
        }
    }

    /// What one registry-scoped `commit_batch` call does: with the
    /// administrator's key and a counter below its maximum, it appends
    /// exactly one commitment carrying the full 64-bit counter value and
    /// advances the counter; otherwise it fails and changes nothing.
    pub open spec fn commit_batch_transition(
        self,
        post: Ledger,
        caller: Seq<u8>,
        merkle_root: Seq<u8>,
        memo_hash: Seq<u8>,
        now: i64,
        r: Result<BatchCommit, MoatError>,
    ) -> bool {
        if caller != self.admin() {
            &&& r == Err::<BatchCommit, MoatError>(MoatError::Unauthorized)
            &&& post == self
        } else if self.next_id() == u64::MAX {
            &&& r == Err::<BatchCommit, MoatError>(MoatError::Overflow)
            &&& post == self
        } else {
            &&& r matches Ok(c) && {
                &&& c.id == self.next_id()
                &&& c.admin@ == self.admin()
                &&& c.merkle_root@ == merkle_root
                &&& c.memo_hash@ == memo_hash
                &&& c.created_at == now
                &&& post.commits@ == self.commits@.push(c)
            }
            &&& post.entries@ == self.entries@
            &&& post.creator_commits@ == self.creator_commits@
            &&& post.spec_initialized()
            &&& post.admin() == self.admin()
            &&& post.next_id() == self.next_id() + 1
            &&& post.state_bump() == self.state_bump()
            &&& post.registry_address@ == self.registry_address@
        }
    }

    /// What one creator-scoped `commit_batch_creator` call does: if the
    /// `(creator, batch id)` slot is free it appends exactly one
    /// commitment; if the slot is taken it fails and changes nothing. The
    /// singleton state and the counter are never involved.
    pub open spec fn commit_batch_creator_transition(
        self,
        post: Ledger,
        creator: Seq<u8>,
        batch_id: u64,
        merkle_root: Seq<u8>,
        memo_hash: Seq<u8>,
        kind: u8,
        now: i64,
        r: Result<CreatorCommit, MoatError>,
    ) -> bool {
        if self.taken(creator, batch_id) {
            &&& r == Err::<CreatorCommit, MoatError>(MoatError::BatchAlreadyExists)
            &&& post == self
        } else {
            &&& r matches Ok(c) && {
                &&& c.creator@ == creator
                &&& c.batch_id == batch_id
                &&& c.kind == kind
                &&& c.merkle_root@ == merkle_root
                &&& c.memo_hash@ == memo_hash
                &&& c.created_at == now
                &&& post.creator_commits@ == self.creator_commits@.push(c)
            }
            &&& post.taken(creator, batch_id)
            &&& post.entries@ == self.entries@
            &&& post.commits@ == self.commits@
            &&& post.state == self.state
            &&& post.registry_address@ == self.registry_address@
        }
    }

    /// A fresh, empty ledger: no singleton state and no records.
    pub fn new() -> (r: Ledger)
        ensures
            r.wf(),
            !r.spec_initialized(),
            r.entries@.len() == 0,
            r.commits@.len() == 0,
            r.creator_commits@.len() == 0,
    {
        Ledger {
            state: None,
            registry_address: [0u8; 32],
            entries: Vec::new(),
            commits: Vec::new(),
            creator_commits: Vec::new(),
        }
    }

    /// Whether the singleton registry state has been created.
    pub fn is_initialized(&self) -> (r: bool)
        ensures
            r == self.spec_initialized(),
    {
        self.state.is_some()
    }

    /// Create the singleton registry state. The first caller becomes the
    /// administrator; the substrate-derived singleton address and nonce are
    /// recorded as given. Fails with `AlreadyInitialized` on a second call.
    pub fn initialize(
        &mut self,
        caller: [u8; 32],
        registry_address: [u8; 32],
        nonce: u8,
    ) -> (r: Result<(), MoatError>)
        requires
            old(self).wf(),
        ensures
            final(self).wf(),
            old(self).initialize_transition(*final(self), caller@, registry_address@, nonce, r),
    {
        if self.state.is_some() {
            return Err(MoatError::AlreadyInitialized);
        }
        self.state = Some(RegistryState { admin: caller, next_id: 0, bump: nonce });
        self.registry_address = registry_address;
        Ok(())
    }

    /// Register one entry: authorize the caller against the stored
    /// administrator key, narrow the counter to the 32-bit identifier,
    /// append the entry and advance the counter — or fail with
    /// `Unauthorized` or `NextIdOverflow` and change nothing.
    pub fn register_entry(
        &mut self,
        caller: [u8; 32],
        target_program: [u8; 32],
        kind: u8,
        nonce: u8,
    ) -> (r: Result<RegistryEntry, MoatError>)
        requires
            old(self).wf(),
            old(self).spec_initialized(),
        ensures
            final(self).wf(),
            old(self).register_entry_transition(
                *final(self),
                caller@,
                target_program@,
                kind,
                nonce,
                r,
            ),
    {
        let st = self.state.unwrap();
        if !key_eq(&st.admin, &caller) {
            return Err(MoatError::Unauthorized);
        }
        let id = match narrow_to_u32(st.next_id) {
            Some(id) => id,
            None => {
                return Err(MoatError::NextIdOverflow);
            },
        };
        let new_next = match checked_increment(st.next_id) {
            Some(n) => n,
            None => {
                // Unreachable: a counter that fits 32 bits is far from the
                // 64-bit maximum.
                return Err(MoatError::Overflow);
            },
        };
        let entry = RegistryEntry {
            registry: self.registry_address,
            id,
            admin: caller,
            target_program,
            kind,
            bump: nonce,
        };
        self.entries.push(entry);
        self.state = Some(RegistryState { admin: st.admin, next_id: new_next, bump: st.bump });
        Ok(entry)
    }

    /// Commit one registry-scoped batch: authorize the caller, append a
    /// commitment carrying the full 64-bit counter value and the given
    /// timestamp, and advance the counter — or fail with `Unauthorized` or
    /// `Overflow` and change nothing.
    pub fn commit_batch(
        &mut self,
        caller: [u8; 32],
        merkle_root: [u8; 32],
        memo_hash: [u8; 32],
        now: i64,
    ) -> (r: Result<BatchCommit, MoatError>)
        requires
            old(self).wf(),
            old(self).spec_initialized(),
        ensures
            final(self).wf(),
            old(self).commit_batch_transition(
                *final(self),
                caller@,
                merkle_root@,
                memo_hash@,
                now,
                r,
            ),
    {
        let st = self.state.unwrap();
        if !key_eq(&st.admin, &caller) {
            return Err(MoatError::Unauthorized);
        }
        let new_next = match checked_increment(st.next_id) {
            Some(n) => n,
            None => {
                return Err(MoatError::Overflow);
            },
        };
        let commit = BatchCommit {
            id: st.next_id,
            admin: st.admin,
            merkle_root,
            memo_hash,
            created_at: now,
        };
        self.commits.push(commit);
        self.state = Some(RegistryState { admin: st.admin, next_id: new_next, bump: st.bump });
        Ok(commit)
    }

    /// Commit one creator-scoped batch under the caller's own
    /// `(creator, batch id)` namespace: append it if that slot has never
    /// been used, else fail with `BatchAlreadyExists` and change nothing.
    /// No administrator is involved and the counter is untouched.
    pub fn commit_batch_creator(
        &mut self,
        creator: [u8; 32],
        batch_id: u64,
        merkle_root: [u8; 32],
        memo_hash: [u8; 32],
        kind: u8,
        now: i64,
    ) -> (r: Result<CreatorCommit, MoatError>)
        requires
            old(self).wf(),
        ensures
            final(self).wf(),
            old(self).commit_batch_creator_transition(
                *final(self),
                creator@,
                batch_id,
                merkle_root@,
                memo_hash@,
                kind,
                now,
                r,
            ),
    {
        let n = self.creator_commits.len();
        let mut i: usize = 0;
        while i < n
            invariant
                *self == *old(self),
                old(self).wf(),
                n == self.creator_commits@.len(),
                i <= n,
                forall|k: int|
                    0 <= k < i ==> !((#[trigger] self.creator_commits@[k]).creator@ == creator@
                        && self.creator_commits@[k].batch_id == batch_id),
            decreases n - i,
        {
            let existing = &self.creator_commits[i];
            if key_eq(&existing.creator, &creator) && existing.batch_id == batch_id {
                return Err(MoatError::BatchAlreadyExists);
            }
            i = i + 1;
        }
        let commit = CreatorCommit {
            creator,
            batch_id,
            kind,
            merkle_root,
            memo_hash,
            created_at: now,
        };
        self.creator_commits.push(commit);
        proof {
            let n = self.creator_commits@.len() - 1;
            assert(self.creator_commits@[n].creator@ == creator@
                && self.creator_commits@[n].batch_id == batch_id);
        }
        Ok(commit)
    }
}

} // verus!
