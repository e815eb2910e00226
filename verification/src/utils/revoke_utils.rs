//! How a revocation settles what was vested but not yet claimed.
use vstd::prelude::*;
use crate::errors::{custom, ProgramError, RewardsProgramError};

verus! {

/// How a revocation settles an allocation.
#[derive(Clone, Copy, Debug, PartialEq, Eq, Structural)]
pub enum RevokeMode {
    /// Vested-but-unclaimed tokens go to the recipient; unvested ones go back.
    NonVested {},
    /// Everything unclaimed goes back to the authority.
    Full {},
}

impl RevokeMode {
    pub open spec fn spec_from_byte(byte: u8) -> Result<RevokeMode, ProgramError> {
        if byte == 0 {
            Ok(RevokeMode::NonVested {})
        } else if byte == 1 {
            Ok(RevokeMode::Full {})
        } else {
            Err(custom(RewardsProgramError::InvalidRevokeMode))
        }
    }

    pub open spec fn spec_to_byte(self) -> u8 {
        match self {
            RevokeMode::NonVested {} => 0,
            RevokeMode::Full {} => 1,
        }
    }

    /// A distribution's `revocable` field is a bitmask of the modes it allows:
    /// bit 0 for `NonVested`, bit 1 for `Full`.
    pub open spec fn spec_is_disabled_by(self, revocable: u8) -> bool {
        match self {
            RevokeMode::NonVested {} => revocable % 2 == 0,
            RevokeMode::Full {} => (revocable / 2) % 2 == 0,
        }
    }

    pub fn from_byte(byte: u8) -> (r: Result<RevokeMode, ProgramError>)
        ensures
            r == Self::spec_from_byte(byte),
    {
        match byte {
            0 => Ok(RevokeMode::NonVested {}),
            1 => Ok(RevokeMode::Full {}),
            _ => Err(ProgramError::Custom(RewardsProgramError::InvalidRevokeMode.code())),
        }
    }

    pub fn to_byte(&self) -> (r: u8)
        ensures
            r == self.spec_to_byte(),
    {
        match self {
            RevokeMode::NonVested {} => 0,
            RevokeMode::Full {} => 1,
        }
    }

    /// Whether the `revocable` bitmask of a distribution forbids this mode.
    pub fn is_disabled_by(&self, revocable: u8) -> (r: bool)
        ensures
            r == self.spec_is_disabled_by(revocable),
    {
        match self {
            RevokeMode::NonVested {} => revocable % 2 == 0,
            RevokeMode::Full {} => (revocable / 2) % 2 == 0,
        }
    }
}

/// Decoding a mode's byte gives the mode back, and every byte that decodes is
/// the byte of what it decodes to.
pub proof fn lemma_revoke_mode_byte_roundtrip(m: RevokeMode, byte: u8)
    ensures
        RevokeMode::spec_from_byte(m.spec_to_byte()) == Ok::<RevokeMode, ProgramError>(m),
        RevokeMode::spec_from_byte(byte) matches Ok(n) ==> n.spec_to_byte() == byte,
{
}

/// The `revocable` byte is a bitmask of allowed modes: `NonVested` is allowed
/// exactly when bit 0 is set, `Full` exactly when bit 1 is set, whatever the
/// other bits hold.
pub proof fn lemma_revocable_bitmask(revocable: u8)
    ensures
        !(RevokeMode::NonVested {}).spec_is_disabled_by(revocable) <==> (revocable & 1u8) == 1u8,
        !(RevokeMode::Full {}).spec_is_disabled_by(revocable) <==> (revocable & 2u8) == 2u8,
{
    assert((revocable % 2 == 0) <==> (revocable & 1u8) != 1u8) by (bit_vector);
    assert(((revocable / 2) % 2 == 0) <==> (revocable & 2u8) != 2u8) by (bit_vector);
}

} // verus!
