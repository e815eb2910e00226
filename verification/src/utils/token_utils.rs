//! Associated token accounts: the address a wallet's account for a mint must have.
use vstd::prelude::*;
use crate::codec::{address_eq, read_u64, u64_of_le, Address};
use crate::errors::ProgramError;
use crate::traits::pda::{program_address_search, seeds_view};
use crate::traits::PdaSeeds;
use crate::utils::program_utils::{ASSOCIATED_TOKEN_ACCOUNT_PROGRAM_ID, TOKEN_PROGRAM_ID, TOKEN_2022_PROGRAM_ID};

verus! {

/// The seeds of an associated token account under the Associated Token
/// Account program: wallet, token program, mint.
pub struct AssociatedTokenAccountSeeds {
    pub wallet: Address,
    pub token_program: Address,
    pub mint: Address,
}

impl PdaSeeds for AssociatedTokenAccountSeeds {
    open spec fn spec_seeds(&self) -> Seq<Seq<u8>> {
        seq![self.wallet@, self.token_program@, self.mint@]
    }

    fn seeds(&self) -> (r: Vec<&[u8]>) {
        let r: Vec<&[u8]> = vec![self.wallet.as_slice(), self.token_program.as_slice(), self.mint.as_slice()];
        assert(seeds_view(r@) =~= self.spec_seeds());
        r
    }
}

/// Whether `ata` is the associated token account of `wallet` for `mint` under
/// `token_program`; an address search that finds nothing counts as a mismatch.
pub open spec fn spec_is_associated_token_account(
    ata: Seq<u8>,
    wallet: Address,
    mint: Address,
    token_program: Address,
) -> bool {
    program_address_search(
        AssociatedTokenAccountSeeds { wallet, token_program, mint }.spec_seeds(),
        ASSOCIATED_TOKEN_ACCOUNT_PROGRAM_ID@,
    ) matches Some((derived, _)) && derived == ata
}

/// Fails with `InvalidAccountData` unless `ata` is the associated token
/// account of `wallet` for `mint` under `token_program`.
pub fn validate_associated_token_account_address(
    ata: &Address,
    wallet: &Address,
    mint: &Address,
    token_program: &Address,
) -> (r: Result<(), ProgramError>)
    ensures
        r == if spec_is_associated_token_account(ata@, *wallet, *mint, *token_program) {
            Ok::<(), ProgramError>(())
        } else {
            Err(ProgramError::InvalidAccountData)
        },
{
    let seeds = AssociatedTokenAccountSeeds { wallet: *wallet, token_program: *token_program, mint: *mint };
    match seeds.derive_address(&ASSOCIATED_TOKEN_ACCOUNT_PROGRAM_ID) {
        Some((expected, _)) => {
            if !address_eq(ata, &expected) {
                return Err(ProgramError::InvalidAccountData);
            }
            Ok(())
        },
        None => Err(ProgramError::InvalidAccountData),
    }
}

/// The checks of an existing associated token account, in order: owned by a
/// token program (`IncorrectProgramId` otherwise), at the right address, and
/// holding data.
pub open spec fn spec_validate_associated_token_account(
    ata: Address,
    ata_owner: Address,
    ata_data_len: usize,
    wallet: Address,
    mint: Address,
    token_program: Address,
) -> Result<(), ProgramError> {
    if ata_owner@ != TOKEN_PROGRAM_ID@ && ata_owner@ != TOKEN_2022_PROGRAM_ID@ {
        Err(ProgramError::IncorrectProgramId)
    } else if !spec_is_associated_token_account(ata@, wallet, mint, token_program) {
        Err(ProgramError::InvalidAccountData)
    } else if ata_data_len == 0 {
        Err(ProgramError::InvalidAccountData)
    } else {
        Ok(())
    }
}

/// Validates an existing associated token account from its address, owner and
/// data length.
pub fn validate_associated_token_account(
    ata: &Address,
    ata_owner: &Address,
    ata_data_len: usize,
    wallet: &Address,
    mint: &Address,
    token_program: &Address,
) -> (r: Result<(), ProgramError>)
    ensures
        r == spec_validate_associated_token_account(
            *ata,
            *ata_owner,
            ata_data_len,
            *wallet,
            *mint,
            *token_program,
        ),
{
    crate::utils::program_utils::verify_token_program(ata_owner)?;
    validate_associated_token_account_address(ata, wallet, mint, token_program)?;
    if ata_data_len == 0 {
        return Err(ProgramError::InvalidAccountData);
    }
    Ok(())
}

/// The length of a mint's base layout, shared by SPL Token and Token-2022.
pub const MINT_BASE_LEN: usize = 82;

/// The length of a token account's base layout, shared by SPL Token and
/// Token-2022.
pub const TOKEN_ACCOUNT_BASE_LEN: usize = 165;

/// Fails with `IncorrectProgramId` unless a token program owns the account.
pub open spec fn spec_token_program_owner(owner: Address) -> Result<(), ProgramError> {
    if owner@ == TOKEN_PROGRAM_ID@ || owner@ == TOKEN_2022_PROGRAM_ID@ {
        Ok(())
    } else {
        Err(ProgramError::IncorrectProgramId)
    }
}

/// The decimals of a mint owned by `owner` whose account holds `data`: the
/// byte after the mint authority (four-byte flag and address) and the
/// eight-byte supply.
pub open spec fn spec_mint_decimals(owner: Address, data: Seq<u8>) -> Result<u8, ProgramError> {
    if spec_token_program_owner(owner) is Err {
        Err(ProgramError::IncorrectProgramId)
    } else if data.len() < MINT_BASE_LEN {
        Err(ProgramError::InvalidAccountData)
    } else {
        Ok(data[44])
    }
}

/// The balance of a token account owned by `owner` whose account holds
/// `data`: the little-endian amount after the mint and the owner.
pub open spec fn spec_token_account_balance(owner: Address, data: Seq<u8>) -> Result<u64, ProgramError> {
    if spec_token_program_owner(owner) is Err {
        Err(ProgramError::IncorrectProgramId)
    } else if data.len() < TOKEN_ACCOUNT_BASE_LEN {
        Err(ProgramError::InvalidAccountData)
    } else {
        Ok(u64_of_le(data.subrange(64, 72)))
    }
}

/// Get decimals from a mint account (SPL Token and Token-2022 mints share the
/// base layout).
pub fn get_mint_decimals(mint_owner: &Address, mint_data: &[u8]) -> (r: Result<u8, ProgramError>)
    ensures
        r == spec_mint_decimals(*mint_owner, mint_data@),
{
    crate::utils::program_utils::verify_token_program(mint_owner)?;
    if mint_data.len() < MINT_BASE_LEN {
        return Err(ProgramError::InvalidAccountData);
    }
    Ok(mint_data[44])
}

/// Get the balance of a token account (SPL Token and Token-2022 accounts share
/// the base layout).
pub fn get_token_account_balance(account_owner: &Address, account_data: &[u8]) -> (r: Result<
    u64,
    ProgramError,
>)
    ensures
        r == spec_token_account_balance(*account_owner, account_data@),
{
    crate::utils::program_utils::verify_token_program(account_owner)?;
    if account_data.len() < TOKEN_ACCOUNT_BASE_LEN {
        return Err(ProgramError::InvalidAccountData);
    }
    Ok(read_u64(account_data, 64))
}

} // verus!
