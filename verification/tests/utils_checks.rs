use rewards_program::errors::ProgramError;
use rewards_program::traits::account::{require_account_len, require_len, validate_discriminator};

fn test_require_len(data: &[u8], len: usize) -> Result<(), ProgramError> {
    require_len(data, len)
}

fn test_validate_discriminator(data: &[u8], discriminator: u8) -> Result<(), ProgramError> {
    validate_discriminator(data, discriminator)
}

#[test]
fn test_require_len_success() {
    let data = [1, 2, 3, 4, 5];
    assert!(test_require_len(&data, 5).is_ok());
    assert!(test_require_len(&data, 3).is_ok());
    assert!(test_require_len(&data, 1).is_ok());
}

#[test]
fn test_require_len_too_short() {
    let data = [1, 2, 3];
    let result = test_require_len(&data, 5);
    assert_eq!(result, Err(ProgramError::InvalidInstructionData));
}

#[test]
fn test_validate_discriminator_success() {
    let data = [42, 1, 2, 3];
    assert!(test_validate_discriminator(&data, 42).is_ok());
}

#[test]
fn test_validate_discriminator_mismatch() {
    let data = [42, 1, 2, 3];
    let result = test_validate_discriminator(&data, 99);
    assert_eq!(result, Err(ProgramError::InvalidAccountData));
}

#[test]
fn test_validate_discriminator_empty() {
    let data: [u8; 0] = [];
    let result = test_validate_discriminator(&data, 0);
    assert_eq!(result, Err(ProgramError::InvalidAccountData));
}

fn test_require_account_len(data: &[u8], len: usize) -> Result<(), ProgramError> {
    require_account_len(data, len)
}

#[test]
fn test_require_account_len_success() {
    let data = [1, 2, 3, 4, 5];
    assert!(test_require_account_len(&data, 5).is_ok());
    assert!(test_require_account_len(&data, 3).is_ok());
    assert!(test_require_account_len(&data, 1).is_ok());
}

#[test]
fn test_require_account_len_too_short() {
    let data = [1, 2, 3];
    let result = test_require_account_len(&data, 5);
    assert_eq!(result, Err(ProgramError::InvalidAccountData));
}

#[test]
fn test_require_len_empty_zero() {
    let data: [u8; 0] = [];
    assert!(test_require_len(&data, 0).is_ok());
}

#[test]
fn test_require_account_len_empty_zero() {
    let data: [u8; 0] = [];
    assert!(test_require_account_len(&data, 0).is_ok());
}

#[test]
fn test_validate_discriminator_single_byte() {
    let data = [42u8];
    assert!(test_validate_discriminator(&data, 42).is_ok());
}
