//! Deterministic address derivation: a pure function from an identifying
//! seed tuple to a storage address plus a disambiguation nonce.
//!
//! The substrate accepts an address for a seed list only when a one-way
//! hash of the seeds and the owning program's id lands in its valid
//! (off-curve) address set. The candidate hash for one exact seed list is
//! outside work; the probing — walking the nonce downward from its maximum
//! until a candidate is accepted — is this module's verified logic.

use vstd::prelude::*;

use vstd::bytes::spec_u32_to_le_bytes;
use vstd::bytes::spec_u64_to_le_bytes;
use vstd::bytes::u32_to_le_bytes;
use vstd::bytes::u64_to_le_bytes;

verus! {

/// The views of a seed list: each seed as its byte sequence.
pub open spec fn seed_views(seeds: Seq<Vec<u8>>) -> Seq<Seq<u8>> {
    seeds.map_values(|s: Vec<u8>| s@)
}

/// The candidate address that the substrate's one-way hash assigns to one
/// exact seed list under one program id, or `None` where the substrate
/// rejects that list (seed limits exceeded, or the hash lands on the
/// ed25519 curve). A pure function of its arguments alone.
pub uninterp spec fn pda_candidate(seeds: Seq<Seq<u8>>, program_id: Seq<u8>) -> Option<Seq<u8>>;

/// Relies on `Address::create_program_address` of the `solana-address`
/// crate (`anchor_lang`'s `Pubkey`): it hashes the exact seed list with
/// the program id and the substrate's derivation marker, returns the hash
/// as the address unless the seed list is over the substrate's limits or
/// the hash lands on the ed25519 curve, and depends on its arguments
/// alone.
#[verifier::external_body]
fn pda_candidate_call(seeds: &Vec<Vec<u8>>, program_id: &[u8; 32]) -> (r: Option<[u8; 32]>)
    ensures
        r matches Some(a) ==> pda_candidate(seed_views(seeds@), program_id@) == Some(a@),
        r is None ==> pda_candidate(seed_views(seeds@), program_id@) is None,
{
    let pk = anchor_lang::prelude::Pubkey::new_from_array(*program_id);
    let refs: Vec<&[u8]> = seeds.iter().map(|s| s.as_slice()).collect();
    match anchor_lang::prelude::Pubkey::create_program_address(&refs, &pk) {
        Ok(a) => Some(a.to_bytes()),
        Err(_) => None,
    }
}

/// Derive the storage address and disambiguation nonce for a seed list:
/// probe the nonce downward from its maximum, appending it to the seeds as
/// one extra one-byte seed, and return the first accepted candidate. The
/// nonce zero is never probed, matching the substrate's own search.
#[verifier::loop_isolation(false)]
pub fn derive_address(seeds: Vec<Vec<u8>>, program_id: &[u8; 32]) -> (r: Option<([u8; 32], u8)>)
    ensures
        r matches Some(p) ==> {
            &&& 1 <= p.1
            &&& pda_candidate(seed_views(seeds@).push(seq![p.1]), program_id@) == Some(p.0@)
            &&& forall|b: u8|
                p.1 < b ==> pda_candidate(seed_views(seeds@).push(seq![b]), program_id@) is None
        },
        r is None ==> forall|b: u8|
            1 <= b ==> pda_candidate(seed_views(seeds@).push(seq![b]), program_id@) is None,
{
    let ghost orig = seeds@;
    let mut seeds = seeds;
    let mut bump: u8 = 255;
    loop
        invariant
            seeds@ == orig,
            1 <= bump <= 255,
            forall|b: u8|
                bump < b ==> pda_candidate(seed_views(orig).push(seq![b]), program_id@) is None,
        decreases bump,
    {
        let mut bv: Vec<u8> = Vec::new();
        bv.push(bump);
        proof {
            assert(bv@ =~= seq![bump]);
        }
        seeds.push(bv);
        proof {
            assert(seed_views(seeds@) =~= seed_views(orig).push(seq![bump]));
        }
        let c = pda_candidate_call(&seeds, program_id);
        seeds.pop();
        proof {
            assert(seeds@ =~= orig);
        }
        match c {
            Some(addr) => {
                return Some((addr, bump));
            },
            None => {
                if bump == 1 {
                    return None;
                }
                bump = bump - 1;
            },
        }
    }
}

/// Copy a 32-byte key into an owned seed.
pub fn key_seed(k: &[u8; 32]) -> (r: Vec<u8>)
    ensures
        r@ == k@,
{
    let mut v: Vec<u8> = Vec::new();
    let mut i: usize = 0;
    while i < 32
        invariant
            i <= 32,
            v@ =~= k@.take(i as int),
        decreases 32 - i,
    {
        v.push(k[i]);
        i = i + 1;
    }
    proof {
        assert(v@ =~= k@);
    }
    v
}

/// The fixed tag of the singleton registry state: the bytes of `state`.
pub open spec fn spec_state_tag() -> Seq<u8> {
    seq![0x73u8, 0x74u8, 0x61u8, 0x74u8, 0x65u8]
}

/// The tag of an entry record: the bytes of `entry`.
pub open spec fn spec_entry_tag() -> Seq<u8> {
    seq![0x65u8, 0x6eu8, 0x74u8, 0x72u8, 0x79u8]
}

/// The tag of a registry-scoped commitment record: the bytes of `commit`.
pub open spec fn spec_commit_tag() -> Seq<u8> {
    seq![0x63u8, 0x6fu8, 0x6du8, 0x6du8, 0x69u8, 0x74u8]
}

/// The tag of a creator-scoped commitment record: the bytes of `batch`.
pub open spec fn spec_batch_tag() -> Seq<u8> {
    seq![0x62u8, 0x61u8, 0x74u8, 0x63u8, 0x68u8]
}

/// The seed list of the singleton registry state: the fixed tag alone.
pub fn state_seeds() -> (r: Vec<Vec<u8>>)
    ensures
        seed_views(r@) =~= seq![spec_state_tag()],
{
    let mut tag: Vec<u8> = Vec::new();
    tag.push(0x73);
    tag.push(0x74);
    tag.push(0x61);
    tag.push(0x74);
    tag.push(0x65);
    proof {
        assert(tag@ =~= spec_state_tag());
    }
    let mut r: Vec<Vec<u8>> = Vec::new();
    r.push(tag);
    r
}

/// The seed list of an entry record: the entry tag, the registry's
/// address, and the 32-bit identifier as four little-endian bytes.
pub fn entry_seeds(registry: &[u8; 32], id: u32) -> (r: Vec<Vec<u8>>)
    ensures
        seed_views(r@) =~= seq![spec_entry_tag(), registry@, spec_u32_to_le_bytes(id)],
{
    let mut tag: Vec<u8> = Vec::new();
    tag.push(0x65);
    tag.push(0x6e);
    tag.push(0x74);
    tag.push(0x72);
    tag.push(0x79);
    proof {
        assert(tag@ =~= spec_entry_tag());
    }
    let mut r: Vec<Vec<u8>> = Vec::new();
    r.push(tag);
    r.push(key_seed(registry));
    r.push(u32_to_le_bytes(id));
    r
}

/// The seed list of a registry-scoped commitment record: the commit tag,
/// the registry's address, and the full 64-bit counter value as eight
/// little-endian bytes.
pub fn commit_seeds(registry: &[u8; 32], id: u64) -> (r: Vec<Vec<u8>>)
    ensures
        seed_views(r@) =~= seq![spec_commit_tag(), registry@, spec_u64_to_le_bytes(id)],
{
    let mut tag: Vec<u8> = Vec::new();
    tag.push(0x63);
    tag.push(0x6f);
    tag.push(0x6d);
    tag.push(0x6d);
    tag.push(0x69);
    tag.push(0x74);
    proof {
        assert(tag@ =~= spec_commit_tag());
    }
    let mut r: Vec<Vec<u8>> = Vec::new();
    r.push(tag);
    r.push(key_seed(registry));
    r.push(u64_to_le_bytes(id));
    r
}

/// The seed list of a creator-scoped commitment record: the batch tag, the
/// creator's key, and the caller-chosen batch identifier as eight
/// little-endian bytes.
pub fn batch_seeds(creator: &[u8; 32], batch_id: u64) -> (r: Vec<Vec<u8>>)
    ensures
        seed_views(r@) =~= seq![spec_batch_tag(), creator@, spec_u64_to_le_bytes(batch_id)],
{
    let mut tag: Vec<u8> = Vec::new();
    tag.push(0x62);
    tag.push(0x61);
    tag.push(0x74);
    tag.push(0x63);
    tag.push(0x68);
    proof {
        assert(tag@ =~= spec_batch_tag());
    }
    let mut r: Vec<Vec<u8>> = Vec::new();
    r.push(tag);
    r.push(key_seed(creator));
    r.push(u64_to_le_bytes(batch_id));
    r
}

} // verus!
