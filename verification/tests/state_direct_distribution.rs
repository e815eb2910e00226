use rewards_program::state::DirectDistribution;
use rewards_program::traits::{
    AccountParse, AccountSerialize, AccountSize, Discriminator, Distribution, PdaAccount, PdaSeeds,
    Versioned,
};

fn create_test_distribution() -> DirectDistribution {
    DirectDistribution::new(255, [1u8; 32], [2u8; 32], [3u8; 32])
}

#[test]
fn test_direct_distribution_new() {
    let dist = create_test_distribution();
    assert_eq!(dist.bump, 255);
    assert_eq!(dist.total_allocated, 0);
    assert_eq!(dist.total_claimed, 0);
}

#[test]
fn test_direct_distribution_to_bytes_inner() {
    let dist = create_test_distribution();
    let bytes = dist.to_bytes_inner();
    assert_eq!(bytes.len(), DirectDistribution::DATA_LEN);
    assert_eq!(bytes[0], 255);
}

#[test]
fn test_direct_distribution_to_bytes() {
    let dist = create_test_distribution();
    let bytes = dist.to_bytes();
    assert_eq!(bytes.len(), DirectDistribution::LEN);
    assert_eq!(bytes[0], DirectDistribution::DISCRIMINATOR);
    assert_eq!(bytes[1], DirectDistribution::VERSION);
    assert_eq!(bytes[2], 255);
}

#[test]
fn direct_distribution_test_remaining_unallocated() {
    let mut dist = create_test_distribution();
    dist.total_allocated = 500;
    dist.total_claimed = 100;
    assert_eq!(dist.remaining_unallocated(1000).unwrap(), 600);
}

#[test]
fn direct_distribution_test_roundtrip_serialization() {
    let dist = create_test_distribution();
    let bytes = dist.to_bytes();
    let deserialized = DirectDistribution::parse_from_bytes(&bytes).unwrap();
    assert_eq!(deserialized.bump, dist.bump);
    assert_eq!(deserialized.authority, dist.authority);
    assert_eq!(deserialized.mint, dist.mint);
    assert_eq!(deserialized.seed, dist.seed);
    assert_eq!(deserialized.total_allocated, dist.total_allocated);
    assert_eq!(deserialized.total_claimed, dist.total_claimed);
}

#[test]
fn direct_distribution_test_pda_seeds() {
    let dist = create_test_distribution();
    let seeds = dist.seeds();
    assert_eq!(seeds.len(), 4);
    assert_eq!(seeds[0], &DirectDistribution::PREFIX[..]);
    assert_eq!(seeds[1], &dist.mint[..]);
    assert_eq!(seeds[2], &dist.authority[..]);
    assert_eq!(seeds[3], &dist.seed[..]);
}

#[test]
fn test_remaining_unallocated_zero_allocated() {
    let dist = create_test_distribution();
    assert_eq!(dist.remaining_unallocated(1000).unwrap(), 1000);
}

#[test]
fn test_remaining_unallocated_insufficient_vault() {
    let mut dist = create_test_distribution();
    dist.total_allocated = 1000;
    dist.total_claimed = 0;
    assert!(dist.remaining_unallocated(500).is_err());
}

#[test]
fn test_remaining_unallocated_claimed_exceeds_allocated() {
    let mut dist = create_test_distribution();
    dist.total_allocated = 500;
    dist.total_claimed = 600;
    assert!(dist.remaining_unallocated(1000).is_err());
}

#[test]
fn direct_distribution_test_validate_authority_success() {
    let dist = create_test_distribution();
    let authority = [1u8; 32];
    assert!(Distribution::validate_authority(&dist, &authority).is_ok());
}

#[test]
fn direct_distribution_test_validate_authority_fail() {
    let dist = create_test_distribution();
    let wrong_authority = [99u8; 32];
    assert!(Distribution::validate_authority(&dist, &wrong_authority).is_err());
}

#[test]
fn direct_distribution_test_distribution_trait_accessors() {
    let dist = create_test_distribution();
    assert_eq!(Distribution::mint(&dist), &dist.mint);
    assert_eq!(Distribution::authority(&dist), &dist.authority);
    assert_eq!(Distribution::seeds_key(&dist), &dist.seed);
    assert_eq!(PdaAccount::bump(&dist), dist.bump);
    assert_eq!(Distribution::total_claimed(&dist), dist.total_claimed);
}

#[test]
fn direct_distribution_test_distribution_add_claimed() {
    let mut dist = create_test_distribution();
    Distribution::add_claimed(&mut dist, 500).unwrap();
    assert_eq!(dist.total_claimed, 500);
}

#[test]
fn direct_distribution_test_set_total_claimed_rejects_decrease() {
    let mut dist = create_test_distribution();
    Distribution::add_claimed(&mut dist, 500).unwrap();
    assert!(Distribution::set_total_claimed(&mut dist, 400).is_err());
    assert_eq!(Distribution::total_claimed(&dist), 500);
}

#[test]
fn direct_distribution_keeps_its_clawback_timestamp() {
    let mut dist = create_test_distribution();
    assert_eq!(dist.clawback_ts, 0);
    dist.clawback_ts = 1_700_000_000;
    dist.revocable = 3;
    let bytes = dist.to_bytes();
    assert_eq!(bytes.len(), 130);
    assert_eq!(&bytes[122..130], &1_700_000_000i64.to_le_bytes());
    assert_eq!(DirectDistribution::parse_from_bytes(&bytes), Ok(dist));
}
