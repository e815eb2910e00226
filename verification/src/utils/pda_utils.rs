//! What creating or closing a program-derived account takes: the decisions,
//! apart from the system-program calls that carry them out.
use vstd::prelude::*;
use crate::errors::{custom, ProgramError, RewardsProgramError};

verus! {

/// What to do to make a program-derived account hold `space` bytes.
#[derive(Clone, Copy, Debug, PartialEq, Eq, Structural)]
pub enum PdaCreation {
    /// Create the account with this many lamports and the space.
    CreateAccount { lamports: u64 },
    /// The account exists with too little data: transfer `top_up` lamports
    /// first where it is `Some`, then resize it to the space.
    Grow { top_up: Option<u64> },
    /// The account holds lamports but no data: transfer `top_up` lamports
    /// where it is `Some`, then allocate the space and assign the owner.
    Initialize { top_up: Option<u64> },
    /// The account already holds at least the space.
    Keep,
}

/// The lamports an account of the space needs: the rent-exempt minimum, and at
/// least one; `None` where the rent could not be calculated.
pub open spec fn spec_required_lamports(rent_minimum: Option<u64>) -> Result<u64, ProgramError> {
    match rent_minimum {
        None => Err(custom(RewardsProgramError::RentCalculationFailed)),
        Some(m) => Ok(if m < 1 { 1 } else { m }),
    }
}

/// The lamports still missing, if any.
pub open spec fn spec_top_up(required: u64, current: u64) -> Option<u64> {
    if required > current {
        Some((required - current) as u64)
    } else {
        None
    }
}

pub fn required_lamports(rent_minimum: Option<u64>) -> (r: Result<u64, ProgramError>)
    ensures
        r == spec_required_lamports(rent_minimum),
{
    match rent_minimum {
        None => Err(ProgramError::Custom(RewardsProgramError::RentCalculationFailed.code())),
        Some(m) => Ok(if m < 1 { 1 } else { m }),
    }
}

fn top_up(required: u64, current: u64) -> (r: Option<u64>)
    ensures
        r == spec_top_up(required, current),
{
    let additional = required.saturating_sub(current);
    if additional > 0 {
        Some(additional)
    } else {
        None
    }
}

/// Creating an account once: an account that already holds lamports is
/// refused with `AccountAlreadyInitialized`.
pub fn plan_create_pda_account(rent_minimum: Option<u64>, current_lamports: u64) -> (r: Result<
    PdaCreation,
    ProgramError,
>)
    ensures
        r == match spec_required_lamports(rent_minimum) {
            Err(e) => Err(e),
            Ok(required) => if current_lamports > 0 {
                Err(ProgramError::AccountAlreadyInitialized)
            } else {
                Ok(PdaCreation::CreateAccount { lamports: required })
            },
        },
{
    let required = required_lamports(rent_minimum)?;
    if current_lamports > 0 {
        Err(ProgramError::AccountAlreadyInitialized)
    } else {
        Ok(PdaCreation::CreateAccount { lamports: required })
    }
}

/// The idempotent creation of an account that must hold `space` bytes.
pub open spec fn spec_plan_create_pda_account_idempotent(
    rent_minimum: Option<u64>,
    current_lamports: u64,
    current_len: usize,
    space: usize,
) -> Result<PdaCreation, ProgramError> {
    match spec_required_lamports(rent_minimum) {
        Err(e) => Err(e),
        Ok(required) => if current_lamports == 0 {
            Ok(PdaCreation::CreateAccount { lamports: required })
        } else if current_len > 0 {
            if space > current_len {
                Ok(PdaCreation::Grow { top_up: spec_top_up(required, current_lamports) })
            } else {
                Ok(PdaCreation::Keep)
            }
        } else {
            Ok(PdaCreation::Initialize { top_up: spec_top_up(required, current_lamports) })
        },
    }
}

/// Creating an account that may already exist: a new account is created; an
/// existing one with data is grown to the space when smaller (topped up to the
/// rent first), else kept; one with lamports but no data is topped up,
/// allocated and assigned.
pub fn plan_create_pda_account_idempotent(
    rent_minimum: Option<u64>,
    current_lamports: u64,
    current_len: usize,
    space: usize,
) -> (r: Result<PdaCreation, ProgramError>)
    ensures
        r == spec_plan_create_pda_account_idempotent(rent_minimum, current_lamports, current_len, space),
{
    let required = required_lamports(rent_minimum)?;
    if current_lamports > 0 {
        if current_len > 0 {
            if space > current_len {
                Ok(PdaCreation::Grow { top_up: top_up(required, current_lamports) })
            } else {
                Ok(PdaCreation::Keep)
            }
        } else {
            Ok(PdaCreation::Initialize { top_up: top_up(required, current_lamports) })
        }
    } else {
        Ok(PdaCreation::CreateAccount { lamports: required })
    }
}

/// The lamports and data length of an account after a plan is carried out.
pub open spec fn spec_after_creation(
    plan: PdaCreation,
    current_lamports: u64,
    current_len: usize,
    space: usize,
) -> (int, int) {
    match plan {
        PdaCreation::CreateAccount { lamports } => (lamports as int, space as int),
        PdaCreation::Grow { top_up } => (
            current_lamports + match top_up {
                Some(t) => t as int,
                None => 0,
            },
            space as int,
        ),
        PdaCreation::Initialize { top_up } => (
            current_lamports + match top_up {
                Some(t) => t as int,
                None => 0,
            },
            space as int,
        ),
        PdaCreation::Keep => (current_lamports as int, current_len as int),
    }
}

/// Carrying out an idempotent creation leaves the account with at least the
/// space; it also holds at least the required lamports, unless it already
/// had all the space it needs, in which case it is left untouched.
pub proof fn lemma_idempotent_creation_suffices(
    rent_minimum: Option<u64>,
    current_lamports: u64,
    current_len: usize,
    space: usize,
)
    requires
        spec_plan_create_pda_account_idempotent(rent_minimum, current_lamports, current_len, space)
            is Ok,
    ensures
        ({
            let plan = spec_plan_create_pda_account_idempotent(
                rent_minimum,
                current_lamports,
                current_len,
                space,
            )->Ok_0;
            let (lamports, len) = spec_after_creation(plan, current_lamports, current_len, space);
            let required = spec_required_lamports(rent_minimum)->Ok_0;
            &&& len >= space
            &&& plan != PdaCreation::Keep ==> lamports >= required
            &&& plan == PdaCreation::Keep ==> current_len >= space && current_lamports > 0
        }),
{
}

/// The recipient's lamports once a closed account's lamports are added, or
/// `MathOverflow`.
pub fn close_pda_lamports(recipient_lamports: u64, pda_lamports: u64) -> (r: Result<u64, ProgramError>)
    ensures
        r == if recipient_lamports + pda_lamports > u64::MAX {
            Err(custom(RewardsProgramError::MathOverflow))
        } else {
            Ok((recipient_lamports + pda_lamports) as u64)
        },
{
    match recipient_lamports.checked_add(pda_lamports) {
        Some(l) => Ok(l),
        None => Err(ProgramError::Custom(RewardsProgramError::MathOverflow.code())),
    }
}

} // verus!
