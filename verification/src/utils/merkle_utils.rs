//! Merkle leaves and proofs over Keccak-256.
use vstd::prelude::*;
use crate::codec::{le_i64, le_u64, push_address, push_i64, push_slice, push_u64, Address};
use crate::errors::{custom, ProgramError, RewardsProgramError};
use crate::utils::vesting_utils::VestingSchedule;

verus! {

/// Prefix byte of a leaf's outer hash, which keeps leaves and inner nodes apart.
pub const LEAF_PREFIX: [u8; 1] = [0];

/// The Keccak-256 digest of `data`, as `const_crypto::sha3::Keccak256` computes it.
pub uninterp spec fn keccak256_digest(data: Seq<u8>) -> Seq<u8>;

/// Calls `const_crypto::sha3::Keccak256` (`new`, `update`, `finalize`). The contract
/// claims only that the 32 bytes returned are the digest of `data`, a function of
/// `data` alone; what that digest is, is not stated.
#[verifier::external_body]
fn keccak256(data: &[u8]) -> (r: [u8; 32])
    ensures
        r@ == keccak256_digest(data@),
{
    const_crypto::sha3::Keccak256::new().update(data).finalize()
}

/// The bytes hashed for a claim's inner hash.
pub open spec fn leaf_preimage(
    claimant: Seq<u8>,
    total_amount: u64,
    schedule_type: u8,
    start_ts: i64,
    end_ts: i64,
) -> Seq<u8> {
    claimant + le_u64(total_amount) + seq![schedule_type] + le_i64(start_ts) + le_i64(end_ts)
}

/// `hash(LEAF_PREFIX || hash(claimant || total_amount || schedule_type || start_ts || end_ts))`.
pub open spec fn spec_leaf_hash(
    claimant: Seq<u8>,
    total_amount: u64,
    schedule_type: u8,
    start_ts: i64,
    end_ts: i64,
) -> Seq<u8> {
    keccak256_digest(
        seq![0u8] + keccak256_digest(
            leaf_preimage(claimant, total_amount, schedule_type, start_ts, end_ts),
        ),
    )
}

/// The leaf of a claimant as the instructions derive it from their data:
/// `hash(LEAF_PREFIX || hash(claimant || total_amount || schedule bytes))`,
/// the schedule in its instruction encoding (tag byte, then timestamps).
pub open spec fn spec_schedule_leaf_hash(
    claimant: Seq<u8>,
    total_amount: u64,
    schedule: VestingSchedule,
) -> Seq<u8> {
    keccak256_digest(
        seq![0u8] + keccak256_digest(claimant + le_u64(total_amount) + schedule.spec_bytes()),
    )
}

/// Lexicographic order on byte strings, as `<` orders byte arrays.
pub open spec fn lex_lt(a: Seq<u8>, b: Seq<u8>) -> bool
    decreases a.len(),
{
    if a.len() == 0 || b.len() == 0 {
        a.len() < b.len()
    } else if a[0] != b[0] {
        a[0] < b[0]
    } else {
        lex_lt(a.drop_first(), b.drop_first())
    }
}

/// Hash of two nodes, the smaller one first.
pub open spec fn spec_hash_pair(a: Seq<u8>, b: Seq<u8>) -> Seq<u8> {
    if lex_lt(a, b) {
        keccak256_digest(a + b)
    } else {
        keccak256_digest(b + a)
    }
}

/// The root reached from `leaf` by hashing in the siblings of `proof`, leaf first.
pub open spec fn proof_root(leaf: Seq<u8>, proof: Seq<[u8; 32]>) -> Seq<u8>
    decreases proof.len(),
{
    if proof.len() == 0 {
        leaf
    } else {
        spec_hash_pair(proof_root(leaf, proof.drop_last()), proof.last()@)
    }
}

/// Compute the merkle leaf hash for a claim.
pub fn compute_leaf_hash(
    claimant: &Address,
    total_amount: u64,
    schedule_type: u8,
    start_ts: i64,
    end_ts: i64,
) -> (r: [u8; 32])
    ensures
        r@ == spec_leaf_hash(claimant@, total_amount, schedule_type, start_ts, end_ts),
{
    let mut inner_data: Vec<u8> = Vec::new();
    push_address(&mut inner_data, claimant);
    push_u64(&mut inner_data, total_amount);
    inner_data.push(schedule_type);
    push_i64(&mut inner_data, start_ts);
    push_i64(&mut inner_data, end_ts);
    let inner_hash = keccak256(inner_data.as_slice());
    let mut outer_data: Vec<u8> = Vec::new();
    outer_data.push(LEAF_PREFIX[0]);
    push_slice(&mut outer_data, inner_hash.as_slice());
    assert(inner_data@ =~= leaf_preimage(claimant@, total_amount, schedule_type, start_ts, end_ts));
    assert(outer_data@ =~= seq![0u8] + inner_hash@);
    keccak256(outer_data.as_slice())
}

/// The merkle leaf of a claimant's allocation of `total_amount` on `schedule`.
pub fn compute_schedule_leaf_hash(claimant: &Address, total_amount: u64, schedule: &VestingSchedule) -> (r: [u8; 32])
    ensures
        r@ == spec_schedule_leaf_hash(claimant@, total_amount, *schedule),
{
    let mut inner_data: Vec<u8> = Vec::new();
    push_address(&mut inner_data, claimant);
    push_u64(&mut inner_data, total_amount);
    let schedule_bytes = schedule.to_bytes();
    push_slice(&mut inner_data, schedule_bytes.as_slice());
    let inner_hash = keccak256(inner_data.as_slice());
    let mut outer_data: Vec<u8> = Vec::new();
    outer_data.push(LEAF_PREFIX[0]);
    push_slice(&mut outer_data, inner_hash.as_slice());
    assert(outer_data@ =~= seq![0u8] + inner_hash@);
    keccak256(outer_data.as_slice())
}

/// For a linear schedule, the leaf derived from the schedule's encoding is the
/// leaf of `compute_leaf_hash` with the linear type byte and the schedule's
/// window: the two derivations name the same leaves.
pub proof fn lemma_linear_schedule_leaf(claimant: Seq<u8>, total_amount: u64, start_ts: i64, end_ts: i64)
    ensures
        spec_schedule_leaf_hash(claimant, total_amount, VestingSchedule::Linear { start_ts, end_ts })
            == spec_leaf_hash(claimant, total_amount, 1u8, start_ts, end_ts),
{
    let schedule = VestingSchedule::Linear { start_ts, end_ts };
    assert(claimant + le_u64(total_amount) + schedule.spec_bytes() =~= leaf_preimage(
        claimant,
        total_amount,
        1u8,
        start_ts,
        end_ts,
    ));
}

/// Whether `a` sorts before `b`.
fn lt_bytes(a: &[u8; 32], b: &[u8; 32]) -> (r: bool)
    ensures
        r == lex_lt(a@, b@),
{
    let mut i: usize = 0;
    assert(a@.subrange(0, 32) =~= a@);
    assert(b@.subrange(0, 32) =~= b@);
    while i < 32
        invariant
            i <= 32,
            a@.len() == 32,
            b@.len() == 32,
            lex_lt(a@, b@) == lex_lt(a@.subrange(i as int, 32), b@.subrange(i as int, 32)),
        decreases 32 - i,
    {
        let ghost x = a@.subrange(i as int, 32);
        let ghost y = b@.subrange(i as int, 32);
        assert(x.drop_first() =~= a@.subrange(i + 1, 32));
        assert(y.drop_first() =~= b@.subrange(i + 1, 32));
        if a[i] != b[i] {
            return a[i] < b[i];
        }
        i = i + 1;
    }
    false
}

/// Hash two nodes together in sorted order (smaller first).
pub fn hash_pair(a: &[u8; 32], b: &[u8; 32]) -> (r: [u8; 32])
    ensures
        r@ == spec_hash_pair(a@, b@),
{
    let mut data: Vec<u8> = Vec::new();
    if lt_bytes(a, b) {
        push_slice(&mut data, a.as_slice());
        push_slice(&mut data, b.as_slice());
    } else {
        push_slice(&mut data, b.as_slice());
        push_slice(&mut data, a.as_slice());
    }
    keccak256(data.as_slice())
}

/// Verify a merkle proof against a root: hashing the siblings into the leaf,
/// one after the other, must give the root.
pub fn verify_proof(proof: &[[u8; 32]], root: &[u8; 32], leaf: &[u8; 32]) -> (r: bool)
    ensures
        r == (proof_root(leaf@, proof@) == root@),
{
    let mut computed_hash: [u8; 32] = *leaf;
    let mut i: usize = 0;
    while i < proof.len()
        invariant
            i <= proof@.len(),
            computed_hash@ == proof_root(leaf@, proof@.take(i as int)),
        decreases proof@.len() - i,
    {
        assert(proof@.take(i + 1).drop_last() =~= proof@.take(i as int));
        computed_hash = hash_pair(&computed_hash, &proof[i]);
        i = i + 1;
    }
    assert(proof@.take(proof@.len() as int) =~= proof@);
    crate::codec::address_eq(&computed_hash, root)
}

/// Verify a merkle proof and return error if invalid.
pub fn verify_proof_or_error(proof: &[[u8; 32]], root: &[u8; 32], leaf: &[u8; 32]) -> (r: Result<
    (),
    ProgramError,
>)
    ensures
        r == if proof_root(leaf@, proof@) == root@ {
            Ok::<(), ProgramError>(())
        } else {
            Err(custom(RewardsProgramError::InvalidMerkleProof))
        },
{
    if verify_proof(proof, root, leaf) {
        Ok(())
    } else {
        Err(ProgramError::Custom(RewardsProgramError::InvalidMerkleProof.code()))
    }
}

/// The order is strict: two strings are never each below the other.
proof fn lemma_lex_lt_asymmetric(a: Seq<u8>, b: Seq<u8>)
    ensures
        !(lex_lt(a, b) && lex_lt(b, a)),
    decreases a.len(),
{
    if a.len() > 0 && b.len() > 0 && a[0] == b[0] {
        lemma_lex_lt_asymmetric(a.drop_first(), b.drop_first());
    }
}

/// Two strings of one length that neither sorts before the other are equal.
proof fn lemma_lex_lt_total(a: Seq<u8>, b: Seq<u8>)
    requires
        a.len() == b.len(),
        !lex_lt(a, b),
        !lex_lt(b, a),
    ensures
        a == b,
    decreases a.len(),
{
    if a.len() > 0 {
        lemma_lex_lt_total(a.drop_first(), b.drop_first());
        assert(a =~= seq![a[0]] + a.drop_first());
        assert(b =~= seq![b[0]] + b.drop_first());
    } else {
        assert(a =~= b);
    }
}

/// The order in which two nodes of one length are given does not change their
/// combined hash.
pub proof fn lemma_hash_pair_commutative(a: Seq<u8>, b: Seq<u8>)
    requires
        a.len() == b.len(),
    ensures
        spec_hash_pair(a, b) == spec_hash_pair(b, a),
{
    lemma_lex_lt_asymmetric(a, b);
    if !lex_lt(a, b) && !lex_lt(b, a) {
        lemma_lex_lt_total(a, b);
    }
}

/// In a tree of two leaves, each leaf proves the other: both proofs reach the
/// same root.
pub proof fn lemma_sibling_proofs_agree(l1: [u8; 32], l2: [u8; 32])
    ensures
        proof_root(l1@, seq![l2]) == proof_root(l2@, seq![l1]),
{
    assert(seq![l2].drop_last() =~= Seq::<[u8; 32]>::empty());
    assert(seq![l1].drop_last() =~= Seq::<[u8; 32]>::empty());
    reveal_with_fuel(proof_root, 2);
    assert(seq![l2].last() == l2);
    assert(seq![l1].last() == l1);
    assert(proof_root(l1@, seq![l2]) == spec_hash_pair(l1@, l2@));
    assert(proof_root(l2@, seq![l1]) == spec_hash_pair(l2@, l1@));
    assert(l1@.len() == 32 && l2@.len() == 32);
    lemma_hash_pair_commutative(l1@, l2@);
}

/// Extending a proof by one sibling moves the root one level up.
pub proof fn lemma_proof_extends(leaf: Seq<u8>, proof: Seq<[u8; 32]>, sibling: [u8; 32])
    ensures
        proof_root(leaf, proof.push(sibling)) == spec_hash_pair(proof_root(leaf, proof), sibling@),
{
    assert(proof.push(sibling).drop_last() =~= proof);
}

} // verus!
