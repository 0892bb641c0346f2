//! The errors with which the vault program refuses an instruction.

use vstd::prelude::*;

verus! {

/// Why an instruction was refused. All but the last are anchor's error codes.
#[derive(Clone, Copy, Debug, PartialEq, Eq, Structural)]
pub enum VaultError {
    /// A `mut` account was not passed as writable.
    ConstraintMut,
    /// An account is not the address its seeds derive.
    ConstraintSeeds,
    /// The created state account holds less than its rent exemption.
    ConstraintRentExempt,
    /// An account would be closed into itself.
    ConstraintClose,
    /// The state account holds fewer than 8 bytes.
    AccountDiscriminatorNotFound,
    /// The state account does not start with the vault state's discriminator.
    AccountDiscriminatorMismatch,
    /// The state account is too short to hold the vault state.
    AccountDidNotDeserialize,
    /// The state account is not owned by this program.
    AccountOwnedByWrongProgram,
    /// The system program account is another program.
    InvalidProgramId,
    /// The system program account is not executable.
    InvalidProgramExecutable,
    /// The user did not sign.
    AccountNotSigner,
    /// The vault is not owned by the system program.
    AccountNotSystemOwned,
    /// The state account holds nothing and belongs to the system program.
    AccountNotInitialized,
    /// The account to be created is the one that pays for it.
    TryingToInitPayerAsProgramAccount,
    /// No bump from 255 down to 1 derives an address from the seeds; anchor
    /// aborts the program there.
    NoViableBumpSeed,
}

/// Anchor's number for each error; the last has none.
pub open spec fn spec_error_code(e: VaultError) -> Option<u32> {
    match e {
        VaultError::ConstraintMut => Some(2000u32),
        VaultError::ConstraintSeeds => Some(2006u32),
        VaultError::ConstraintRentExempt => Some(2005u32),
        VaultError::ConstraintClose => Some(2011u32),
        VaultError::AccountDiscriminatorNotFound => Some(3001u32),
        VaultError::AccountDiscriminatorMismatch => Some(3002u32),
        VaultError::AccountDidNotDeserialize => Some(3003u32),
        VaultError::AccountOwnedByWrongProgram => Some(3007u32),
        VaultError::InvalidProgramId => Some(3008u32),
        VaultError::InvalidProgramExecutable => Some(3009u32),
        VaultError::AccountNotSigner => Some(3010u32),
        VaultError::AccountNotSystemOwned => Some(3011u32),
        VaultError::AccountNotInitialized => Some(3012u32),
        VaultError::TryingToInitPayerAsProgramAccount => Some(4101u32),
        VaultError::NoViableBumpSeed => None,
    }
}

impl VaultError {
    /// The error's number, as anchor reports it.
    pub fn code(&self) -> (r: Option<u32>)
        ensures
            r == spec_error_code(*self),
    {
        match self {
            VaultError::ConstraintMut => Some(2000),
            VaultError::ConstraintSeeds => Some(2006),
            VaultError::ConstraintRentExempt => Some(2005),
            VaultError::ConstraintClose => Some(2011),
            VaultError::AccountDiscriminatorNotFound => Some(3001),
            VaultError::AccountDiscriminatorMismatch => Some(3002),
            VaultError::AccountDidNotDeserialize => Some(3003),
            VaultError::AccountOwnedByWrongProgram => Some(3007),
            VaultError::InvalidProgramId => Some(3008),
            VaultError::InvalidProgramExecutable => Some(3009),
            VaultError::AccountNotSigner => Some(3010),
            VaultError::AccountNotSystemOwned => Some(3011),
            VaultError::AccountNotInitialized => Some(3012),
            VaultError::TryingToInitPayerAsProgramAccount => Some(4101),
            VaultError::NoViableBumpSeed => None,
        }
    }
}

} // verus!
