use vstd::prelude::*;

verus! {

/// The vault's own failure taxonomy. Every guard failure surfaces exactly one
/// of these kinds; all are terminal, and a failed operation leaves the stored
/// record untouched.
#[derive(Clone, Copy, Debug, PartialEq, Eq, Structural)]
pub enum VaultError {
    /// The payload does not decode to a known operation.
    InvalidInstruction,
    /// Storage funding was insufficient at creation time (host-policy check).
    NotRentExempt,
    /// Reserved; no current transition produces it.
    ExpectedAmountMismatch,
    /// A checked arithmetic step would leave the unsigned 64-bit range.
    AmountOverflow,
    /// A withdrawal amount exceeds the current balance.
    InsufficientFunds,
    /// The caller identity does not match the record's owner.
    AuthorityMismatch,
    /// A withdrawal was attempted before the cooldown window elapsed.
    TimelockNotExpired,
}

impl VaultError {
    /// The stable numeric code of this kind, in declaration order, for
    /// host-facing custom-error encodings.
    pub open spec fn spec_code(self) -> u32 {
        match self {
            VaultError::InvalidInstruction => 0,
            VaultError::NotRentExempt => 1,
            VaultError::ExpectedAmountMismatch => 2,
            VaultError::AmountOverflow => 3,
            VaultError::InsufficientFunds => 4,
            VaultError::AuthorityMismatch => 5,
            VaultError::TimelockNotExpired => 6,
        }
    }

    /// Returns the stable numeric code of this kind.
    pub fn code(&self) -> (c: u32)
        ensures
            c == self.spec_code(),
    {
        match self {
            VaultError::InvalidInstruction => 0,
            VaultError::NotRentExempt => 1,
            VaultError::ExpectedAmountMismatch => 2,
            VaultError::AmountOverflow => 3,
            VaultError::InsufficientFunds => 4,
            VaultError::AuthorityMismatch => 5,
            VaultError::TimelockNotExpired => 6,
        }
    }
}

/// A processing failure: one of the vault's own error kinds, or a host-level
/// account failure mirrored from the execution environment's error set.
#[derive(Clone, Copy, Debug, PartialEq, Eq, Structural)]
pub enum ProcessError {
    /// A guard of the vault itself failed.
    Vault(VaultError),
    /// An account's stored bytes are not a well-formed record of the
    /// expected kind, or a bound identity does not match.
    InvalidAccountData,
    /// The positional account list is shorter than the operation requires.
    NotEnoughAccountKeys,
}

} // verus!
