use rewards_program::errors::ProgramError;
use rewards_program::traits::RewardsInstructionDiscriminators;

#[test]
fn test_discriminator_try_from_create_direct_distribution() {
    let result = RewardsInstructionDiscriminators::try_from(0u8);
    assert!(result.is_ok());
    assert!(matches!(result.unwrap(), RewardsInstructionDiscriminators::CreateDirectDistribution));
}

#[test]
fn test_discriminator_try_from_add_direct_recipient() {
    let result = RewardsInstructionDiscriminators::try_from(1u8);
    assert!(result.is_ok());
    assert!(matches!(result.unwrap(), RewardsInstructionDiscriminators::AddDirectRecipient));
}

#[test]
fn test_discriminator_try_from_claim_direct() {
    let result = RewardsInstructionDiscriminators::try_from(2u8);
    assert!(result.is_ok());
    assert!(matches!(result.unwrap(), RewardsInstructionDiscriminators::ClaimDirect));
}

#[test]
fn test_discriminator_try_from_close_direct_distribution() {
    let result = RewardsInstructionDiscriminators::try_from(3u8);
    assert!(result.is_ok());
    assert!(matches!(result.unwrap(), RewardsInstructionDiscriminators::CloseDirectDistribution));
}

#[test]
fn test_discriminator_try_from_emit_event() {
    let result = RewardsInstructionDiscriminators::try_from(228u8);
    assert!(result.is_ok());
    assert!(matches!(result.unwrap(), RewardsInstructionDiscriminators::EmitEvent));
}

#[test]
fn test_discriminator_try_from_merkle_instructions() {
    let result = RewardsInstructionDiscriminators::try_from(5u8);
    assert!(result.is_ok());
    assert!(matches!(result.unwrap(), RewardsInstructionDiscriminators::CreateMerkleDistribution));

    let result = RewardsInstructionDiscriminators::try_from(6u8);
    assert!(result.is_ok());
    assert!(matches!(result.unwrap(), RewardsInstructionDiscriminators::ClaimMerkle));

    let result = RewardsInstructionDiscriminators::try_from(7u8);
    assert!(result.is_ok());
    assert!(matches!(result.unwrap(), RewardsInstructionDiscriminators::CloseMerkleClaim));

    let result = RewardsInstructionDiscriminators::try_from(8u8);
    assert!(result.is_ok());
    assert!(matches!(result.unwrap(), RewardsInstructionDiscriminators::CloseMerkleDistribution));
}

#[test]
fn test_discriminator_try_from_close_direct_recipient() {
    let result = RewardsInstructionDiscriminators::try_from(4u8);
    assert!(result.is_ok());
    assert!(matches!(result.unwrap(), RewardsInstructionDiscriminators::CloseDirectRecipient));
}

#[test]
fn test_discriminator_try_from_revoke_direct_recipient() {
    let result = RewardsInstructionDiscriminators::try_from(9u8);
    assert!(result.is_ok());
    assert!(matches!(result.unwrap(), RewardsInstructionDiscriminators::RevokeDirectRecipient));
}

#[test]
fn test_discriminator_try_from_revoke_merkle_claim() {
    let result = RewardsInstructionDiscriminators::try_from(10u8);
    assert!(result.is_ok());
    assert!(matches!(result.unwrap(), RewardsInstructionDiscriminators::RevokeMerkleClaim));
}

#[test]
fn test_discriminator_try_from_invalid() {
    let result = RewardsInstructionDiscriminators::try_from(11u8);
    assert!(matches!(result, Err(ProgramError::InvalidInstructionData)));

    let result = RewardsInstructionDiscriminators::try_from(255u8);
    assert!(matches!(result, Err(ProgramError::InvalidInstructionData)));

    let result = RewardsInstructionDiscriminators::try_from(100u8);
    assert!(matches!(result, Err(ProgramError::InvalidInstructionData)));
}
