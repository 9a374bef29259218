//! A custodial token vault: one owner deposits a token, withdraws it, or
//! splits the whole balance evenly over up to twenty destinations.
//!
//! The ledger's transfer and close operations are performed by the caller;
//! this library decides, for every instruction, whether it may go ahead and
//! which ledger operations it asks for, and keeps the vault record in step.
pub mod error;
pub mod state;
pub mod accounts;
pub mod ledger;
pub mod vault;
pub mod distribution;
pub mod laws;

pub use accounts::{read_token_account, token_program_id, AccountInfo, TokenAccount};
pub use distribution::{share_funds, Distribution, ShareFunds, MAX_TARGETS};
pub use error::CustomError;
pub use ledger::{vault_signer_seeds, CloseAccountOrder, TokenTransfer};
pub use state::{Key, VaultInfo};
pub use vault::{
    close_vault, deposit_vault, initialize_vault, record_deposit, record_withdrawal, withdraw,
    CloseVault, Deposit, Initialize, VaultAccounts, WithDraw,
};
