//! Account layout: discriminator and version header, parsing and serialization.
use vstd::prelude::*;
use crate::codec::{address_eq, copy_prefix, Address};
use crate::errors::ProgramError;

verus! {

pub const ACCOUNT_DISCRIMINATOR_SIZE: usize = 1;

pub const ACCOUNT_VERSION_SIZE: usize = 1;

pub const ACCOUNT_HEADER_SIZE: usize = 2;

/// Discriminator for account types
pub trait Discriminator {
    const DISCRIMINATOR: u8;
}

/// Version marker for account types
pub trait Versioned {
    const VERSION: u8;
}

/// Account size constants
pub trait AccountSize: Discriminator + Versioned + Sized {
    /// Size of the account data (excluding discriminator and version)
    const DATA_LEN: usize;

    /// Total size including discriminator and version
    const LEN: usize = 1 + 1 + Self::DATA_LEN;

    /// Alias for LEN
    const ACCOUNT_SIZE: usize = Self::LEN;
}

/// Account discriminator values for this program
#[derive(Clone, Copy, Debug, PartialEq, Eq, Structural)]
pub enum RewardsAccountDiscriminators {
    VestingDistribution,
    VestingRecipient,
    DirectDistribution,
    DirectRecipient,
    MerkleDistribution,
    MerkleClaim,
    MerkleRevocation,
    Revocation,
    RewardPool,
    UserRewardAccount,
}

impl RewardsAccountDiscriminators {
    pub open spec fn spec_value(self) -> u8 {
        match self {
            RewardsAccountDiscriminators::VestingDistribution => 0,
            RewardsAccountDiscriminators::VestingRecipient => 1,
            RewardsAccountDiscriminators::DirectDistribution => 2,
            RewardsAccountDiscriminators::DirectRecipient => 3,
            RewardsAccountDiscriminators::MerkleDistribution => 4,
            RewardsAccountDiscriminators::MerkleClaim => 5,
            RewardsAccountDiscriminators::MerkleRevocation => 6,
            RewardsAccountDiscriminators::Revocation => 7,
            RewardsAccountDiscriminators::RewardPool => 8,
            RewardsAccountDiscriminators::UserRewardAccount => 9,
        }
    }

    /// The byte that starts the data of an account of this type.
    pub fn value(&self) -> (r: u8)
        ensures
            r == self.spec_value(),
    {
        match self {
            RewardsAccountDiscriminators::VestingDistribution => 0,
            RewardsAccountDiscriminators::VestingRecipient => 1,
            RewardsAccountDiscriminators::DirectDistribution => 2,
            RewardsAccountDiscriminators::DirectRecipient => 3,
            RewardsAccountDiscriminators::MerkleDistribution => 4,
            RewardsAccountDiscriminators::MerkleClaim => 5,
            RewardsAccountDiscriminators::MerkleRevocation => 6,
            RewardsAccountDiscriminators::Revocation => 7,
            RewardsAccountDiscriminators::RewardPool => 8,
            RewardsAccountDiscriminators::UserRewardAccount => 9,
        }
    }
}

/// Whether account data is long enough and carries the expected discriminator.
pub open spec fn header_ok(data: Seq<u8>, len: nat, discriminator: u8) -> bool {
    data.len() >= len && data.len() > 0 && data[0] == discriminator
}

/// Fails with `InvalidInstructionData` when instruction data is shorter than `len`.
pub fn require_len(data: &[u8], len: usize) -> (r: Result<(), ProgramError>)
    ensures
        r == if data@.len() < len {
            Err(ProgramError::InvalidInstructionData)
        } else {
            Ok::<(), ProgramError>(())
        },
{
    if data.len() < len {
        return Err(ProgramError::InvalidInstructionData);
    }
    Ok(())
}

/// Fails with `InvalidAccountData` when account data is shorter than `len`.
pub fn require_account_len(data: &[u8], len: usize) -> (r: Result<(), ProgramError>)
    ensures
        r == if data@.len() < len {
            Err(ProgramError::InvalidAccountData)
        } else {
            Ok::<(), ProgramError>(())
        },
{
    if data.len() < len {
        return Err(ProgramError::InvalidAccountData);
    }
    Ok(())
}

/// Fails with `InvalidAccountData` unless the data starts with `discriminator`.
pub fn validate_discriminator(data: &[u8], discriminator: u8) -> (r: Result<(), ProgramError>)
    ensures
        r == if data@.len() == 0 || data@[0] != discriminator {
            Err(ProgramError::InvalidAccountData)
        } else {
            Ok::<(), ProgramError>(())
        },
{
    if data.len() == 0 || data[0] != discriminator {
        return Err(ProgramError::InvalidAccountData);
    }
    Ok(())
}

/// Checks the length and the discriminator of account data, in that order.
pub fn check_account_header(data: &[u8], len: usize, discriminator: u8) -> (r: Result<(), ProgramError>)
    ensures
        r == if header_ok(data@, len as nat, discriminator) {
            Ok::<(), ProgramError>(())
        } else {
            Err(ProgramError::InvalidAccountData)
        },
{
    if data.len() < len {
        return Err(ProgramError::InvalidAccountData);
    }
    validate_discriminator(data, discriminator)
}

/// Account parsing from bytes (header checked, version skipped).
pub trait AccountParse: AccountSize {
    /// Whether `data` holds an account of this type.
    spec fn spec_parses(data: Seq<u8>) -> bool;

    /// Whether `value` is what `data` holds.
    spec fn spec_reads(data: Seq<u8>, value: Self) -> bool;

    /// The error reported for data that does not hold such an account.
    spec fn spec_parse_error(data: Seq<u8>) -> ProgramError;

    fn parse_from_bytes(data: &[u8]) -> (r: Result<Self, ProgramError>)
        ensures
            r is Ok <==> Self::spec_parses(data@),
            r matches Ok(v) ==> Self::spec_reads(data@, v),
            r matches Err(e) ==> e == Self::spec_parse_error(data@),
    ;
}

/// Account serialization with discriminator and version prefix
pub trait AccountSerialize: Discriminator + Versioned {
    /// The account data after the header.
    spec fn spec_inner(&self) -> Seq<u8>;

    /// The whole account data: discriminator, version, then the inner data.
    open spec fn spec_bytes(&self) -> Seq<u8> {
        seq![Self::DISCRIMINATOR, Self::VERSION] + self.spec_inner()
    }

    /// Serialize account data without discriminator/version
    fn to_bytes_inner(&self) -> (r: Vec<u8>)
        ensures
            r@ == self.spec_inner(),
    ;

    /// Serialize with discriminator and version prefix
    fn to_bytes(&self) -> (r: Vec<u8>)
        ensures
            r@ == seq![Self::DISCRIMINATOR, Self::VERSION] + self.spec_inner(),
    {
        let inner = self.to_bytes_inner();
        let mut data: Vec<u8> = Vec::new();
        data.push(Self::DISCRIMINATOR);
        data.push(Self::VERSION);
        crate::codec::push_slice(&mut data, inner.as_slice());
        data
    }

    /// Write directly to a mutable slice; the bytes after the account data are
    /// left as they were.
    fn write_to_slice(&self, dest: &mut [u8]) -> (r: Result<(), ProgramError>)
        ensures
            ({
                let bytes = seq![Self::DISCRIMINATOR, Self::VERSION] + self.spec_inner();
                if old(dest)@.len() < bytes.len() {
                    &&& r == Err::<(), ProgramError>(ProgramError::AccountDataTooSmall)
                    &&& final(dest)@ == old(dest)@
                } else {
                    &&& r == Ok::<(), ProgramError>(())
                    &&& final(dest)@ == bytes + old(dest)@.subrange(
                        bytes.len() as int,
                        old(dest)@.len() as int,
                    )
                }
            }),
    {
        let bytes = self.to_bytes();
        if dest.len() < bytes.len() {
            return Err(ProgramError::AccountDataTooSmall);
        }
        copy_prefix(dest, bytes.as_slice());
        Ok(())
    }
}

/// Account validation helpers
pub trait AccountValidation: Discriminator {
    fn validate_discriminator(data: &[u8]) -> (r: Result<(), ProgramError>)
        ensures
            r == if data@.len() == 0 || data@[0] != Self::DISCRIMINATOR {
                Err(ProgramError::InvalidAccountData)
            } else {
                Ok::<(), ProgramError>(())
            },
    {
        validate_discriminator(data, Self::DISCRIMINATOR)
    }

    /// Fails with `IllegalOwner` unless the account's owner (`owner`) is
    /// `expected_owner`.
    fn validate_owner(owner: &Address, expected_owner: &Address) -> (r: Result<(), ProgramError>)
        ensures
            r == if owner@ == expected_owner@ {
                Ok::<(), ProgramError>(())
            } else {
                Err(ProgramError::IllegalOwner)
            },
    {
        if !address_eq(owner, expected_owner) {
            return Err(ProgramError::IllegalOwner);
        }
        Ok(())
    }
}

} // verus!
