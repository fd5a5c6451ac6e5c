use moat_registry::arith::{checked_increment, narrow_to_u32};
use moat_registry::errors::MoatError;
use moat_registry::keys::key_eq;
use moat_registry::ledger::{Ledger, RegistryState};

fn key(b: u8) -> [u8; 32] {
    [b; 32]
}

#[test]
fn initialize_sets_admin_and_counter() {
    let mut ledger = Ledger::new();
    let a = key(1);
    let r = ledger.initialize(a, key(9), 254);
    assert_eq!(r, Ok(()));
    let st = ledger.state.unwrap();
    assert_eq!(st.admin, a);
    assert_eq!(st.next_id, 0);
    assert_eq!(st.bump, 254);
    assert_eq!(ledger.registry_address, key(9));
}

#[test]
fn second_initialize_fails_and_changes_nothing() {
    let mut ledger = Ledger::new();
    let a = key(1);
    assert_eq!(ledger.initialize(a, key(9), 254), Ok(()));
    let r = ledger.initialize(key(2), key(8), 7);
    assert_eq!(r, Err(MoatError::AlreadyInitialized));
    let st = ledger.state.unwrap();
    assert_eq!(st.admin, a);
    assert_eq!(st.next_id, 0);
    assert_eq!(st.bump, 254);
    assert_eq!(ledger.registry_address, key(9));
}

#[test]
fn register_entry_allocates_sequential_ids() {
    let mut ledger = Ledger::new();
    let a = key(1);
    assert_eq!(ledger.initialize(a, key(9), 255), Ok(()));

    let t1 = key(2);
    let e1 = ledger.register_entry(a, t1, 1, 250).unwrap();
    assert_eq!(e1.id, 0);
    assert_eq!(e1.admin, a);
    assert_eq!(e1.target_program, t1);
    assert_eq!(e1.kind, 1);
    assert_eq!(e1.registry, key(9));
    assert_eq!(e1.bump, 250);
    assert_eq!(ledger.state.unwrap().next_id, 1);

    let t2 = key(3);
    let e2 = ledger.register_entry(a, t2, 2, 249).unwrap();
    assert_eq!(e2.id, 1);
    assert_eq!(e2.target_program, t2);
    assert_eq!(e2.kind, 2);
    assert_eq!(ledger.state.unwrap().next_id, 2);
    assert_eq!(ledger.entries.len(), 2);
}

#[test]
fn register_entry_by_non_admin_is_unauthorized() {
    let mut ledger = Ledger::new();
    let a = key(1);
    assert_eq!(ledger.initialize(a, key(9), 255), Ok(()));
    assert!(ledger.register_entry(a, key(2), 1, 250).is_ok());
    assert!(ledger.register_entry(a, key(3), 2, 249).is_ok());

    let b = key(4);
    let r = ledger.register_entry(b, key(5), 1, 248);
    assert_eq!(r, Err(MoatError::Unauthorized));
    assert_eq!(ledger.state.unwrap().next_id, 2);
    assert_eq!(ledger.entries.len(), 2);
}

#[test]
fn commit_batch_uses_full_counter_and_timestamp() {
    let mut ledger = Ledger::new();
    let a = key(1);
    assert_eq!(ledger.initialize(a, key(9), 255), Ok(()));
    assert!(ledger.register_entry(a, key(2), 1, 250).is_ok());

    let root = key(10);
    let memo = key(11);
    let c = ledger.commit_batch(a, root, memo, 1_700_000_000).unwrap();
    assert_eq!(c.id, 1);
    assert_eq!(c.admin, a);
    assert_eq!(c.merkle_root, root);
    assert_eq!(c.memo_hash, memo);
    assert_eq!(c.created_at, 1_700_000_000);
    assert_eq!(ledger.state.unwrap().next_id, 2);
    assert_eq!(ledger.commits.len(), 1);
}

#[test]
fn commit_batch_by_non_admin_is_unauthorized() {
    let mut ledger = Ledger::new();
    let a = key(1);
    assert_eq!(ledger.initialize(a, key(9), 255), Ok(()));
    let r = ledger.commit_batch(key(2), key(10), key(11), 5);
    assert_eq!(r, Err(MoatError::Unauthorized));
    assert_eq!(ledger.state.unwrap().next_id, 0);
    assert_eq!(ledger.commits.len(), 0);
}

#[test]
fn register_entry_reports_next_id_overflow() {
    let a = key(1);
    let mut ledger = Ledger {
        state: Some(RegistryState { admin: a, next_id: u32::MAX as u64 + 1, bump: 255 }),
        registry_address: key(9),
        entries: Vec::new(),
        commits: Vec::new(),
        creator_commits: Vec::new(),
    };
    let r = ledger.register_entry(a, key(2), 1, 250);
    assert_eq!(r, Err(MoatError::NextIdOverflow));
    assert_eq!(ledger.state.unwrap().next_id, u32::MAX as u64 + 1);
    assert!(ledger.entries.is_empty());
}

#[test]
fn register_entry_at_u32_max_still_fits() {
    let a = key(1);
    let mut ledger = Ledger {
        state: Some(RegistryState { admin: a, next_id: u32::MAX as u64, bump: 255 }),
        registry_address: key(9),
        entries: Vec::new(),
        commits: Vec::new(),
        creator_commits: Vec::new(),
    };
    let e = ledger.register_entry(a, key(2), 1, 250).unwrap();
    assert_eq!(e.id, u32::MAX);
    assert_eq!(ledger.state.unwrap().next_id, u32::MAX as u64 + 1);
}

#[test]
fn commit_batch_reports_overflow_at_counter_maximum() {
    let a = key(1);
    let mut ledger = Ledger {
        state: Some(RegistryState { admin: a, next_id: u64::MAX, bump: 255 }),
        registry_address: key(9),
        entries: Vec::new(),
        commits: Vec::new(),
        creator_commits: Vec::new(),
    };
    let r = ledger.commit_batch(a, key(10), key(11), 5);
    assert_eq!(r, Err(MoatError::Overflow));
    assert_eq!(ledger.state.unwrap().next_id, u64::MAX);
    assert!(ledger.commits.is_empty());
}

#[test]
fn creator_commit_succeeds_once_per_pair() {
    let mut ledger = Ledger::new();
    let c = key(20);
    let root = key(10);
    let memo = key(11);

    let first = ledger.commit_batch_creator(c, 7, root, memo, 3, 100).unwrap();
    assert_eq!(first.creator, c);
    assert_eq!(first.batch_id, 7);
    assert_eq!(first.kind, 3);
    assert_eq!(first.merkle_root, root);
    assert_eq!(first.memo_hash, memo);
    assert_eq!(first.created_at, 100);

    let again = ledger.commit_batch_creator(c, 7, key(12), key(13), 4, 200);
    assert_eq!(again, Err(MoatError::BatchAlreadyExists));
    assert_eq!(ledger.creator_commits.len(), 1);
    let kept = &ledger.creator_commits[0];
    assert_eq!(kept.merkle_root, root);
    assert_eq!(kept.memo_hash, memo);
    assert_eq!(kept.kind, 3);
    assert_eq!(kept.created_at, 100);

    let other = ledger.commit_batch_creator(c, 8, root, memo, 3, 300);
    assert!(other.is_ok());
    assert_eq!(ledger.creator_commits.len(), 2);
}

#[test]
fn creator_commit_is_independent_per_creator() {
    let mut ledger = Ledger::new();
    assert!(ledger.commit_batch_creator(key(20), 7, key(10), key(11), 3, 100).is_ok());
    assert!(ledger.commit_batch_creator(key(21), 7, key(10), key(11), 3, 100).is_ok());
    assert_eq!(
        ledger.commit_batch_creator(key(21), 7, key(10), key(11), 3, 100),
        Err(MoatError::BatchAlreadyExists)
    );
}

#[test]
fn creator_commit_needs_no_initialization_and_keeps_state_absent() {
    let mut ledger = Ledger::new();
    assert!(ledger.commit_batch_creator(key(20), 1, key(10), key(11), 0, 0).is_ok());
    assert!(ledger.state.is_none());
}

#[test]
fn checked_increment_exact_values() {
    assert_eq!(checked_increment(0), Some(1));
    assert_eq!(checked_increment(41), Some(42));
    assert_eq!(checked_increment(u64::MAX - 1), Some(u64::MAX));
    assert_eq!(checked_increment(u64::MAX), None);
}

#[test]
fn narrow_to_u32_exact_values() {
    assert_eq!(narrow_to_u32(0), Some(0));
    assert_eq!(narrow_to_u32(123_456), Some(123_456));
    assert_eq!(narrow_to_u32(u32::MAX as u64), Some(u32::MAX));
    assert_eq!(narrow_to_u32(u32::MAX as u64 + 1), None);
    assert_eq!(narrow_to_u32(u64::MAX), None);
}

#[test]
fn key_eq_compares_bytes() {
    let mut a = key(5);
    let b = key(5);
    assert!(key_eq(&a, &b));
    a[31] = 6;
    assert!(!key_eq(&a, &b));
}
