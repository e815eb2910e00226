use rewards_program::state::{MerkleRevocation, MerkleRevocationSeeds, Revocation, RevocationSeeds};
use rewards_program::traits::{
    AccountParse, AccountSerialize, AccountSize, Discriminator, PdaSeeds, Versioned,
};

#[test]
fn test_merkle_revocation_new() {
    let revocation = MerkleRevocation::new(255);
    assert_eq!(revocation.bump, 255);
}

#[test]
fn test_merkle_revocation_to_bytes_inner() {
    let revocation = MerkleRevocation::new(255);
    let bytes = revocation.to_bytes_inner();
    assert_eq!(bytes.len(), MerkleRevocation::DATA_LEN);
    assert_eq!(bytes[0], 255);
}

#[test]
fn test_merkle_revocation_to_bytes() {
    let revocation = MerkleRevocation::new(255);
    let bytes = revocation.to_bytes();
    assert_eq!(bytes.len(), MerkleRevocation::LEN);
    assert_eq!(bytes[0], MerkleRevocation::DISCRIMINATOR);
    assert_eq!(bytes[1], MerkleRevocation::VERSION);
    assert_eq!(bytes[2], 255);
}

#[test]
fn merkle_revocation_test_roundtrip_serialization() {
    let revocation = MerkleRevocation::new(255);
    let bytes = revocation.to_bytes();
    let deserialized = MerkleRevocation::parse_from_bytes(&bytes).unwrap();
    assert_eq!(deserialized.bump, revocation.bump);
}

#[test]
fn test_merkle_revocation_seeds_pda_seeds() {
    let seeds = MerkleRevocationSeeds { distribution: [1u8; 32], claimant: [2u8; 32] };
    let pda_seeds = seeds.seeds();
    assert_eq!(pda_seeds.len(), 3);
    assert_eq!(pda_seeds[0], &MerkleRevocationSeeds::PREFIX[..]);
    assert_eq!(pda_seeds[1], &seeds.distribution[..]);
    assert_eq!(pda_seeds[2], &seeds.claimant[..]);
}

#[test]
fn merkle_revocation_test_account_size() {
    assert_eq!(MerkleRevocation::DATA_LEN, 1);
    assert_eq!(MerkleRevocation::LEN, 3);
}

#[test]
fn test_revocation_new() {
    let revocation = Revocation::new(255);
    assert_eq!(revocation.bump, 255);
}

#[test]
fn test_revocation_to_bytes_inner() {
    let revocation = Revocation::new(255);
    let bytes = revocation.to_bytes_inner();
    assert_eq!(bytes.len(), Revocation::DATA_LEN);
    assert_eq!(bytes[0], 255);
}

#[test]
fn test_revocation_to_bytes() {
    let revocation = Revocation::new(255);
    let bytes = revocation.to_bytes();
    assert_eq!(bytes.len(), Revocation::LEN);
    assert_eq!(bytes[0], Revocation::DISCRIMINATOR);
    assert_eq!(bytes[1], Revocation::VERSION);
    assert_eq!(bytes[2], 255);
}

#[test]
fn revocation_test_roundtrip_serialization() {
    let revocation = Revocation::new(255);
    let bytes = revocation.to_bytes();
    let deserialized = Revocation::parse_from_bytes(&bytes).unwrap();
    assert_eq!(deserialized.bump, revocation.bump);
}

#[test]
fn test_revocation_seeds_pda_seeds() {
    let seeds = RevocationSeeds { parent: [1u8; 32], user: [2u8; 32] };
    let pda_seeds = seeds.seeds();
    assert_eq!(pda_seeds.len(), 3);
    assert_eq!(pda_seeds[0], &RevocationSeeds::PREFIX[..]);
    assert_eq!(pda_seeds[1], &seeds.parent[..]);
    assert_eq!(pda_seeds[2], &seeds.user[..]);
}

#[test]
fn revocation_test_account_size() {
    assert_eq!(Revocation::DATA_LEN, 1);
    assert_eq!(Revocation::LEN, 3);
}
