//! Checks that an account is the program it must be.
use vstd::prelude::*;
use crate::codec::{address_eq, Address};
use crate::errors::ProgramError;

verus! {

/// This program's id (`3bwhqHWmDDh3gYZ8gFpSFBwwtyiSTfhRnWZo34nSjohX`).
pub const ID: Address = [
    38, 170, 249, 178, 144, 9, 99, 33, 106, 56, 171, 221, 208, 139, 91, 146, 160, 144, 129, 32, 199,
    245, 164, 42, 253, 207, 139, 1, 244, 252, 85, 166,
];

/// The system program's id (`11111111111111111111111111111111`).
pub const SYSTEM_PROGRAM_ID: Address = [
    0, 0, 0, 0, 0, 0, 0, 0, 0, 0, 0, 0, 0, 0, 0, 0, 0, 0, 0, 0, 0, 0, 0, 0, 0, 0, 0, 0, 0, 0, 0, 0,
];

/// The SPL Token program's id (`TokenkegQfeZyiNwAJbNbGKPFXCWuBvf9Ss623VQ5DA`).
pub const TOKEN_PROGRAM_ID: Address = [
    6, 221, 246, 225, 215, 101, 161, 147, 217, 203, 225, 70, 206, 235, 121, 172, 28, 180, 133, 237,
    95, 91, 55, 145, 58, 140, 245, 133, 126, 255, 0, 169,
];

/// The Token-2022 program's id (`TokenzQdBNbLqP5VEhdkAS6EPFLC1PHnBqCXEpPxuEb`).
pub const TOKEN_2022_PROGRAM_ID: Address = [
    6, 221, 246, 225, 238, 117, 143, 222, 24, 66, 93, 188, 228, 108, 205, 218, 182, 26, 252, 77, 131,
    185, 13, 39, 254, 189, 249, 40, 216, 161, 139, 252,
];

/// The Associated Token Account program's id
/// (`ATokenGPvbdGVxr1b2hvZbsiqW5xWH25efTNsLJA8knL`).
pub const ASSOCIATED_TOKEN_ACCOUNT_PROGRAM_ID: Address = [
    140, 151, 37, 143, 78, 36, 137, 241, 187, 61, 16, 41, 20, 142, 13, 131, 11, 90, 19, 153, 218,
    255, 16, 132, 4, 142, 123, 216, 219, 233, 248, 89,
];

/// Reads `pinocchio_system::ID`. The contract claims its bytes are the base58
/// decoding of the id that crate declares, `SYSTEM_PROGRAM_ID`.
#[verifier::external_body]
fn system_program_id() -> (r: Address)
    ensures
        r == SYSTEM_PROGRAM_ID,
{
    pinocchio_system::ID.to_bytes()
}

/// Reads `pinocchio_token::ID`. The contract claims its bytes are the base58
/// decoding of the id that crate declares, `TOKEN_PROGRAM_ID`.
#[verifier::external_body]
fn token_program_id() -> (r: Address)
    ensures
        r == TOKEN_PROGRAM_ID,
{
    pinocchio_token::ID.to_bytes()
}

/// Reads `pinocchio_token_2022::ID`. The contract claims its bytes are the
/// base58 decoding of the id that crate declares, `TOKEN_2022_PROGRAM_ID`.
#[verifier::external_body]
fn token_2022_program_id() -> (r: Address)
    ensures
        r == TOKEN_2022_PROGRAM_ID,
{
    pinocchio_token_2022::ID.to_bytes()
}

/// Reads `pinocchio_associated_token_account::ID`. The contract claims its
/// bytes are the base58 decoding of the id that crate declares,
/// `ASSOCIATED_TOKEN_ACCOUNT_PROGRAM_ID`.
#[verifier::external_body]
fn associated_token_account_program_id() -> (r: Address)
    ensures
        r == ASSOCIATED_TOKEN_ACCOUNT_PROGRAM_ID,
{
    pinocchio_associated_token_account::ID.to_bytes()
}

/// Fails with `IncorrectProgramId` unless `account` is `id`.
pub open spec fn spec_expect_program(account: Address, id: Address) -> Result<(), ProgramError> {
    if account@ == id@ {
        Ok(())
    } else {
        Err(ProgramError::IncorrectProgramId)
    }
}

/// Verify the account is the system program.
pub fn verify_system_program(account: &Address) -> (r: Result<(), ProgramError>)
    ensures
        r == spec_expect_program(*account, SYSTEM_PROGRAM_ID),
{
    let id = system_program_id();
    if !address_eq(account, &id) {
        return Err(ProgramError::IncorrectProgramId);
    }
    Ok(())
}

/// Verify the account is a token program (SPL Token or Token-2022).
pub fn verify_token_program(account: &Address) -> (r: Result<(), ProgramError>)
    ensures
        r == if account@ == TOKEN_PROGRAM_ID@ || account@ == TOKEN_2022_PROGRAM_ID@ {
            Ok::<(), ProgramError>(())
        } else {
            Err(ProgramError::IncorrectProgramId)
        },
{
    let token = token_program_id();
    let token_2022 = token_2022_program_id();
    if !address_eq(account, &token) && !address_eq(account, &token_2022) {
        return Err(ProgramError::IncorrectProgramId);
    }
    Ok(())
}

/// Verify the account is this program.
pub fn verify_current_program(account: &Address) -> (r: Result<(), ProgramError>)
    ensures
        r == spec_expect_program(*account, ID),
{
    if !address_eq(account, &ID) {
        return Err(ProgramError::IncorrectProgramId);
    }
    Ok(())
}

/// Verify the account is the associated token program.
pub fn verify_associated_token_program(account: &Address) -> (r: Result<(), ProgramError>)
    ensures
        r == spec_expect_program(*account, ASSOCIATED_TOKEN_ACCOUNT_PROGRAM_ID),
{
    let id = associated_token_account_program_id();
    if !address_eq(account, &id) {
        return Err(ProgramError::IncorrectProgramId);
    }
    Ok(())
}

} // verus!
