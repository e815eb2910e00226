use rewards_program::state::{MerkleClaim, MerkleClaimSeeds};
use rewards_program::traits::{
    AccountParse, AccountSerialize, AccountSize, ClaimTracker, Discriminator, PdaSeeds, Versioned,
};

fn create_test_claim() -> MerkleClaim {
    MerkleClaim::new(255)
}

#[test]
fn test_merkle_claim_new() {
    let claim = create_test_claim();
    assert_eq!(claim.bump, 255);
    assert_eq!(claim.claimed_amount, 0);
}

#[test]
fn test_merkle_claim_to_bytes_inner() {
    let claim = create_test_claim();
    let bytes = claim.to_bytes_inner();
    assert_eq!(bytes.len(), MerkleClaim::DATA_LEN);
    assert_eq!(bytes[0], 255);
    assert_eq!(&bytes[1..8], &[0u8; 7]);
}

#[test]
fn test_merkle_claim_to_bytes() {
    let claim = create_test_claim();
    let bytes = claim.to_bytes();
    assert_eq!(bytes.len(), MerkleClaim::LEN);
    assert_eq!(bytes[0], MerkleClaim::DISCRIMINATOR);
    assert_eq!(bytes[1], MerkleClaim::VERSION);
    assert_eq!(bytes[2], 255);
}

#[test]
fn merkle_claim_test_roundtrip_serialization() {
    let mut claim = create_test_claim();
    claim.claimed_amount = 500_000;
    let bytes = claim.to_bytes();
    let deserialized = MerkleClaim::parse_from_bytes(&bytes).unwrap();
    assert_eq!(deserialized.bump, claim.bump);
    assert_eq!(deserialized.claimed_amount, claim.claimed_amount);
}

#[test]
fn test_merkle_claim_seeds_pda_seeds() {
    let seeds = MerkleClaimSeeds { distribution: [1u8; 32], claimant: [2u8; 32] };
    let pda_seeds = seeds.seeds();
    assert_eq!(pda_seeds.len(), 3);
    assert_eq!(pda_seeds[0], &MerkleClaimSeeds::PREFIX[..]);
    assert_eq!(pda_seeds[1], &seeds.distribution[..]);
    assert_eq!(pda_seeds[2], &seeds.claimant[..]);
}

#[test]
fn merkle_claim_test_claimable_amount() {
    let claim = create_test_claim();
    assert_eq!(ClaimTracker::claimable_amount(&claim, 500).unwrap(), 500);
}

#[test]
fn merkle_claim_test_claimable_amount_with_prior_claims() {
    let mut claim = create_test_claim();
    claim.claimed_amount = 200;
    assert_eq!(ClaimTracker::claimable_amount(&claim, 500).unwrap(), 300);
}

#[test]
fn merkle_claim_test_claimable_amount_overflow() {
    let mut claim = create_test_claim();
    claim.claimed_amount = 600;
    assert!(ClaimTracker::claimable_amount(&claim, 500).is_err());
}

#[test]
fn merkle_claim_test_claim_tracker_trait() {
    let mut claim = create_test_claim();
    assert_eq!(ClaimTracker::claimed_amount(&claim), 0);
    ClaimTracker::set_claimed_amount(&mut claim, 500).unwrap();
    assert_eq!(ClaimTracker::claimed_amount(&claim), 500);
}

#[test]
fn merkle_claim_test_remaining_amount() {
    let mut claim = create_test_claim();
    claim.claimed_amount = 300;
    assert_eq!(claim.remaining_amount(1000).unwrap(), 700);
}

#[test]
fn merkle_claim_test_remaining_amount_full() {
    let claim = create_test_claim();
    assert_eq!(claim.remaining_amount(1000).unwrap(), 1000);
}

#[test]
fn merkle_claim_test_remaining_amount_overflow() {
    let mut claim = create_test_claim();
    claim.claimed_amount = 1500;
    assert!(claim.remaining_amount(1000).is_err());
}
