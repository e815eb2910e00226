//! Token-2022 mints whose extensions would endanger a distribution are refused.
use vstd::prelude::*;
use crate::codec::{address_eq, Address};
use crate::errors::{custom, ProgramError, RewardsProgramError};
use crate::utils::program_utils::TOKEN_2022_PROGRAM_ID;
use spl_token_2022::extension::{BaseStateWithExtensions, StateWithExtensions};
use spl_token_2022::state::Mint;

verus! {

/// `ExtensionType::NonTransferable` of spl-token-2022, as its `u16`.
pub const NON_TRANSFERABLE_EXTENSION: u16 = 9;

/// `ExtensionType::PermanentDelegate` of spl-token-2022, as its `u16`.
pub const PERMANENT_DELEGATE_EXTENSION: u16 = 12;

/// `ExtensionType::Pausable` of spl-token-2022, as its `u16`.
pub const PAUSABLE_EXTENSION: u16 = 26;

/// The error for a blocked extension, if `ext` is one.
pub open spec fn spec_blocked_extension(ext: u16) -> Option<ProgramError> {
    if ext == PERMANENT_DELEGATE_EXTENSION {
        Some(custom(RewardsProgramError::PermanentDelegateNotAllowed))
    } else if ext == NON_TRANSFERABLE_EXTENSION {
        Some(custom(RewardsProgramError::NonTransferableNotAllowed))
    } else if ext == PAUSABLE_EXTENSION {
        Some(custom(RewardsProgramError::PausableNotAllowed))
    } else {
        None
    }
}

/// The outcome of checking a mint's extensions in order: the error of the
/// first blocked one, if any.
pub open spec fn spec_check_mint_extensions(exts: Seq<u16>) -> Result<(), ProgramError>
    decreases exts.len(),
{
    if exts.len() == 0 {
        Ok(())
    } else {
        match spec_blocked_extension(exts[0]) {
            Some(e) => Err(e),
            None => spec_check_mint_extensions(exts.drop_first()),
        }
    }
}

/// Only mints owned by the Token-2022 program carry extensions to check;
/// plain SPL Token mints are accepted as they are.
pub fn requires_extension_check(mint_owner: &Address) -> (r: bool)
    ensures
        r == (mint_owner@ == TOKEN_2022_PROGRAM_ID@),
{
    address_eq(mint_owner, &TOKEN_2022_PROGRAM_ID)
}

/// Refuses a mint with a blocked extension: `PermanentDelegate` (its
/// authority can move tokens out of any account), `NonTransferable` (tokens
/// cannot move) or `Pausable` (its authority can stop transfers). The first
/// blocked extension in the mint's order decides the error.
pub fn check_mint_extensions(extension_types: &[u16]) -> (r: Result<(), ProgramError>)
    ensures
        r == spec_check_mint_extensions(extension_types@),
{
    let mut i: usize = 0;
    assert(extension_types@.skip(0) =~= extension_types@);
    while i < extension_types.len()
        invariant
            i <= extension_types@.len(),
            spec_check_mint_extensions(extension_types@) == spec_check_mint_extensions(
                extension_types@.skip(i as int),
            ),
        decreases extension_types@.len() - i,
    {
        let ext = extension_types[i];
        assert(extension_types@.skip(i as int).drop_first() =~= extension_types@.skip(i + 1));
        if ext == PERMANENT_DELEGATE_EXTENSION {
            return Err(ProgramError::Custom(RewardsProgramError::PermanentDelegateNotAllowed.code()));
        } else if ext == NON_TRANSFERABLE_EXTENSION {
            return Err(ProgramError::Custom(RewardsProgramError::NonTransferableNotAllowed.code()));
        } else if ext == PAUSABLE_EXTENSION {
            return Err(ProgramError::Custom(RewardsProgramError::PausableNotAllowed.code()));
        }
        i = i + 1;
    }
    assert(extension_types@.skip(i as int) =~= Seq::<u16>::empty());
    Ok(())
}

/// A mint passes exactly when none of its extensions is blocked.
pub proof fn lemma_mint_passes_iff_no_blocked_extension(exts: Seq<u16>)
    ensures
        spec_check_mint_extensions(exts) is Ok <==> forall|i: int|
            0 <= i < exts.len() ==> #[trigger] spec_blocked_extension(exts[i]) is None,
    decreases exts.len(),
{
    if exts.len() > 0 {
        lemma_mint_passes_iff_no_blocked_extension(exts.drop_first());
        assert forall|i: int| 0 < i < exts.len() implies exts[i] == exts.drop_first()[i - 1] by {}
        if spec_check_mint_extensions(exts) is Ok {
            assert forall|i: int| 0 <= i < exts.len() implies #[trigger] spec_blocked_extension(
                exts[i],
            ) is None by {
                if i > 0 {
                    assert(exts[i] == exts.drop_first()[i - 1]);
                }
            }
        } else if spec_blocked_extension(exts[0]) is None {
            let j = choose|j: int|
                0 <= j < exts.drop_first().len() && !(#[trigger] spec_blocked_extension(
                    exts.drop_first()[j],
                ) is None);
            assert(exts[j + 1] == exts.drop_first()[j]);
        }
    }
}

/// What spl-token-2022 reads from a mint account's data: the types of the
/// extensions it carries, in their order (each as its `u16`), or the error
/// that stops the read.
pub uninterp spec fn mint_extension_types(data: Seq<u8>) -> Result<Seq<u16>, ProgramError>;

/// Calls `spl_token_2022::extension::StateWithExtensions::<Mint>::unpack` on
/// `data`, then `get_extension_types` on the state it gives, each type taken
/// as its `u16`. The contract claims only that the outcome is a function of
/// `data` alone (`mint_extension_types`); which data parse, and into which
/// types, is not stated. The failures the source shows are
/// `UninitializedAccount` (a mint not initialized), `InvalidArgument` and
/// `InvalidAccountData` (every malformed layout); they are passed on as such.
#[verifier::external_body]
fn unpack_mint_extension_types(data: &[u8]) -> (r: Result<Vec<u16>, ProgramError>)
    ensures
        match r {
            Ok(v) => mint_extension_types(data@) == Ok::<Seq<u16>, ProgramError>(v@),
            Err(e) => mint_extension_types(data@) == Err::<Seq<u16>, ProgramError>(e),
        },
{
    let types = match StateWithExtensions::<Mint>::unpack(data) {
        Ok(state) => state.get_extension_types(),
        Err(e) => Err(e),
    };
    match types {
        Ok(types) => Ok(types.into_iter().map(u16::from).collect()),
        Err(pinocchio::error::ProgramError::UninitializedAccount) => Err(ProgramError::UninitializedAccount),
        Err(pinocchio::error::ProgramError::InvalidArgument) => Err(ProgramError::InvalidArgument),
        Err(_) => Err(ProgramError::InvalidAccountData),
    }
}

/// The outcome of checking a mint owned by `mint_owner` whose account holds
/// `mint_data`: SPL Token mints pass; a Token-2022 mint must parse and carry
/// no blocked extension.
pub open spec fn spec_validate_mint_extensions(mint_owner: Seq<u8>, mint_data: Seq<u8>) -> Result<
    (),
    ProgramError,
> {
    if mint_owner != TOKEN_2022_PROGRAM_ID@ {
        Ok(())
    } else {
        match mint_extension_types(mint_data) {
            Err(e) => Err(e),
            Ok(exts) => spec_check_mint_extensions(exts),
        }
    }
}

/// Validates that a Token-2022 mint has no dangerous extension: mints of
/// other owners are not checked; a Token-2022 mint is read with spl-token-2022
/// and refused with the error of its first blocked extension.
pub fn validate_mint_extensions(mint_owner: &Address, mint_data: &[u8]) -> (r: Result<(), ProgramError>)
    ensures
        r == spec_validate_mint_extensions(mint_owner@, mint_data@),
{
    if !requires_extension_check(mint_owner) {
        return Ok(());
    }
    let types = unpack_mint_extension_types(mint_data)?;
    check_mint_extensions(types.as_slice())
}

} // verus!
