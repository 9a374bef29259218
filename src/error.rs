use vstd::prelude::*;

verus! {

/// The failures that the vault instructions report.
#[derive(Debug, Clone, Copy, PartialEq, Eq, Structural)]
pub enum CustomError {
    NoTargets,
    VaultEmpty,
    Unauthorized,
    MaxLimitError,
    InvalidTokenAccount,
    InvalidMint,
    WrongVaultOwner,
    InsufficientFunds,
    AccountNotInitialized,
    AccountFrozen,
    WrongOwner,
    InvalidVaultTokenAccount,
    UnauthorizedDeposit,
    UnauthorizedWithDraw,
    WrongMint,
    Overflow,
    ZeroAmount,
    VaultNotEmpty,
}

} // verus!
