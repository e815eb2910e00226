//! Where a continuous pool reads a user's tracked balance from.
use vstd::prelude::*;
use crate::errors::{custom, ProgramError, RewardsProgramError};

verus! {

/// Where a continuous pool reads a user's tracked balance from.
#[derive(Clone, Copy, Debug, PartialEq, Eq, Structural)]
pub enum BalanceSource {
    /// The user's on-chain token account.
    OnChain,
    /// A balance the pool authority sets.
    AuthoritySet,
}

impl BalanceSource {
    pub open spec fn spec_to_byte(self) -> u8 {
        match self {
            BalanceSource::OnChain => 0,
            BalanceSource::AuthoritySet => 1,
        }
    }

    pub open spec fn spec_try_from(byte: u8) -> Result<BalanceSource, ProgramError> {
        if byte == 0 {
            Ok(BalanceSource::OnChain)
        } else if byte == 1 {
            Ok(BalanceSource::AuthoritySet)
        } else {
            Err(custom(RewardsProgramError::InvalidBalanceSource))
        }
    }

    pub fn to_byte(&self) -> (r: u8)
        ensures
            r == self.spec_to_byte(),
    {
        match self {
            BalanceSource::OnChain => 0,
            BalanceSource::AuthoritySet => 1,
        }
    }
}

impl TryFrom<u8> for BalanceSource {
    type Error = ProgramError;

    fn try_from(byte: u8) -> (r: Result<BalanceSource, ProgramError>) {
        match byte {
            0 => Ok(BalanceSource::OnChain),
            1 => Ok(BalanceSource::AuthoritySet),
            _ => Err(ProgramError::Custom(RewardsProgramError::InvalidBalanceSource.code())),
        }
    }
}

impl vstd::std_specs::convert::TryFromSpecImpl<u8> for BalanceSource {
    open spec fn obeys_try_from_spec() -> bool {
        true
    }

    open spec fn try_from_spec(byte: u8) -> Result<BalanceSource, ProgramError> {
        BalanceSource::spec_try_from(byte)
    }
}

/// Decoding a source's byte gives the source back, and every byte that decodes
/// is the byte of what it decodes to.
pub proof fn lemma_balance_source_byte_roundtrip(s: BalanceSource, byte: u8)
    ensures
        BalanceSource::spec_try_from(s.spec_to_byte()) == Ok::<BalanceSource, ProgramError>(s),
        BalanceSource::spec_try_from(byte) matches Ok(t) ==> t.spec_to_byte() == byte,
{
}

} // verus!
