use vstd::prelude::*;
use crate::accounts::TokenAccount;
use crate::error::CustomError;
use crate::ledger::{CloseAccountOrder, TokenTransfer};
use crate::state::{Key, VaultInfo};

verus! {

/// What creating a vault reads: the creating signer, the mint, and the
/// derivation salts found for the record and the holding account.
#[derive(Debug, Clone, Copy)]
pub struct Initialize {
    pub signer: Key,
    pub mint: Key,
    pub vault_info_bump: u8,
    pub vault_token_bump: u8,
}

/// Creates the record of a new vault, owned by the signer, for the mint,
/// with nothing accounted yet.
pub fn initialize_vault(ctx: &Initialize, now: i64) -> (r: VaultInfo)
    ensures
        r.owner@ == ctx.signer@,
        r.mint@ == ctx.mint@,
        r.amount == 0,
        r.vault_info_bump == ctx.vault_info_bump,
        r.vault_token_bump == ctx.vault_token_bump,
        r.created_at == now,
{
    VaultInfo {
        owner: ctx.signer,
        amount: 0,
        mint: ctx.mint,
        vault_info_bump: ctx.vault_info_bump,
        vault_token_bump: ctx.vault_token_bump,
        created_at: now,
    }
}

/// What a deposit reads: the vault record, its holding account, the
/// signer's source account, the signer and the mint.
#[derive(Debug, Clone, Copy)]
pub struct Deposit {
    pub vault_info: VaultInfo,
    pub vault_token_acc: TokenAccount,
    pub user_token_acc: TokenAccount,
    pub signer: Key,
    pub mint: Key,
}

/// Why a deposit of `amount` is refused, if it is.
pub open spec fn deposit_error(ctx: Deposit, amount: u64) -> Option<CustomError> {
    if ctx.user_token_acc.mint@ != ctx.mint@ {
        Some(CustomError::InvalidMint)
    } else if amount == 0 {
        Some(CustomError::ZeroAmount)
    } else if ctx.vault_info.owner@ != ctx.signer@ {
        Some(CustomError::Unauthorized)
    } else if ctx.vault_info.mint@ != ctx.mint@ {
        Some(CustomError::WrongMint)
    } else {
        None
    }
}

/// Checks a deposit of `amount` and gives the transfer that moves it from
/// the signer's account into the holding account, signed by the signer.
/// Once the ledger has performed it, `record_deposit` accounts for it.
pub fn deposit_vault(ctx: &Deposit, amount: u64) -> (r: Result<TokenTransfer, CustomError>)
    ensures
        r is Ok <==> deposit_error(*ctx, amount) is None,
        r matches Err(e) ==> deposit_error(*ctx, amount) == Some(e),
        r matches Ok(t) ==> {
            &&& t.from@ == ctx.user_token_acc.key@
            &&& t.to@ == ctx.vault_token_acc.key@
            &&& t.authority@ == ctx.signer@
            &&& t.amount == amount
            &&& !t.vault_signed
        },
{
    if !ctx.user_token_acc.mint.same(&ctx.mint) {
        return Err(CustomError::InvalidMint);
    }
    if amount == 0 {
        return Err(CustomError::ZeroAmount);
    }
    if !ctx.vault_info.owner.same(&ctx.signer) {
        return Err(CustomError::Unauthorized);
    }
    if !ctx.vault_info.mint.same(&ctx.mint) {
        return Err(CustomError::WrongMint);
    }
    Ok(TokenTransfer {
        from: ctx.user_token_acc.key,
        to: ctx.vault_token_acc.key,
        authority: ctx.signer,
        amount,
        vault_signed: false,
    })
}

/// Whether two records differ at most in the accounted amount.
pub open spec fn same_but_amount(a: VaultInfo, b: VaultInfo) -> bool {
    &&& a.owner == b.owner
    &&& a.mint == b.mint
    &&& a.vault_info_bump == b.vault_info_bump
    &&& a.vault_token_bump == b.vault_token_bump
    &&& a.created_at == b.created_at
}

/// Accounts for `amount` deposited; fails with `Overflow`, changing nothing,
/// where the sum does not fit.
pub fn record_deposit(vault_info: &mut VaultInfo, amount: u64) -> (r: Result<(), CustomError>)
    ensures
        r is Ok <==> old(vault_info).amount + amount <= u64::MAX,
        r is Ok ==> final(vault_info).amount == old(vault_info).amount + amount,
        r is Ok ==> same_but_amount(*final(vault_info), *old(vault_info)),
        r is Err ==> r == Err::<(), CustomError>(CustomError::Overflow),
        r is Err ==> *final(vault_info) == *old(vault_info),
{
    match vault_info.amount.checked_add(amount) {
        Some(a) => {
            vault_info.amount = a;
            Ok(())
        },
        None => Err(CustomError::Overflow),
    }
}

/// Accounts for `amount` taken out; fails with `Overflow`, changing nothing,
/// where more is taken out than is accounted.
pub fn record_withdrawal(vault_info: &mut VaultInfo, amount: u64) -> (r: Result<(), CustomError>)
    ensures
        r is Ok <==> amount <= old(vault_info).amount,
        r is Ok ==> final(vault_info).amount == old(vault_info).amount - amount,
        r is Ok ==> same_but_amount(*final(vault_info), *old(vault_info)),
        r is Err ==> r == Err::<(), CustomError>(CustomError::Overflow),
        r is Err ==> *final(vault_info) == *old(vault_info),
{
    match vault_info.amount.checked_sub(amount) {
        Some(a) => {
            vault_info.amount = a;
            Ok(())
        },
        None => Err(CustomError::Overflow),
    }
}


/// What withdrawing, distributing and closing read: the vault record and
/// its address, the holding account, the signer, the signer's own token
/// account and the mint.
#[derive(Debug, Clone, Copy)]
pub struct VaultAccounts {
    pub vault_info: VaultInfo,
    pub vault_info_key: Key,
    pub vault_token_acc: TokenAccount,
    pub signer: Key,
    pub user_token_acc: TokenAccount,
    pub mint: Key,
}

/// The accounts of a withdrawal.
pub type WithDraw = VaultAccounts;

/// The accounts of a vault's teardown.
pub type CloseVault = VaultAccounts;

/// Why the accounts do not fit together, if they do not: the holding
/// account must hold the mint and be controlled by the vault record, and the
/// signer's account must be the signer's and hold the mint.
pub open spec fn accounts_error(ctx: VaultAccounts) -> Option<CustomError> {
    if ctx.vault_token_acc.mint@ != ctx.mint@ {
        Some(CustomError::InvalidMint)
    } else if ctx.vault_token_acc.owner@ != ctx.vault_info_key@ {
        Some(CustomError::InvalidVaultTokenAccount)
    } else if ctx.user_token_acc.owner@ != ctx.signer@ {
        Some(CustomError::WrongOwner)
    } else if ctx.user_token_acc.mint@ != ctx.mint@ {
        Some(CustomError::InvalidMint)
    } else {
        None
    }
}

impl VaultAccounts {
    /// Checks that the accounts fit together.
    pub fn check(&self) -> (r: Result<(), CustomError>)
        ensures
            r is Ok <==> accounts_error(*self) is None,
            r matches Err(e) ==> accounts_error(*self) == Some(e),
    {
        if !self.vault_token_acc.mint.same(&self.mint) {
            return Err(CustomError::InvalidMint);
        }
        if !self.vault_token_acc.owner.same(&self.vault_info_key) {
            return Err(CustomError::InvalidVaultTokenAccount);
        }
        if !self.user_token_acc.owner.same(&self.signer) {
            return Err(CustomError::WrongOwner);
        }
        if !self.user_token_acc.mint.same(&self.mint) {
            return Err(CustomError::InvalidMint);
        }
        Ok(())
    }
}

/// Why a withdrawal is refused, if it is.
pub open spec fn withdraw_error(ctx: WithDraw) -> Option<CustomError> {
    if accounts_error(ctx) is Some {
        accounts_error(ctx)
    } else if ctx.vault_info.owner@ != ctx.signer@ {
        Some(CustomError::Unauthorized)
    } else if ctx.vault_info.mint@ != ctx.mint@ {
        Some(CustomError::WrongMint)
    } else if ctx.vault_token_acc.amount == 0 {
        Some(CustomError::VaultEmpty)
    } else {
        None
    }
}

/// Checks a withdrawal and gives the transfer of the holding account's
/// whole balance to the signer's account, signed by the vault. Once the
/// ledger has performed it, `record_withdrawal` accounts for it.
pub fn withdraw(ctx: &WithDraw) -> (r: Result<TokenTransfer, CustomError>)
    ensures
        r is Ok <==> withdraw_error(*ctx) is None,
        r matches Err(e) ==> withdraw_error(*ctx) == Some(e),
        r matches Ok(t) ==> {
            &&& t.from@ == ctx.vault_token_acc.key@
            &&& t.to@ == ctx.user_token_acc.key@
            &&& t.authority@ == ctx.vault_info_key@
            &&& t.amount == ctx.vault_token_acc.amount
            &&& t.vault_signed
        },
{
    ctx.check()?;
    if !ctx.vault_info.owner.same(&ctx.signer) {
        return Err(CustomError::Unauthorized);
    }
    if !ctx.vault_info.mint.same(&ctx.mint) {
        return Err(CustomError::WrongMint);
    }
    if ctx.vault_token_acc.amount == 0 {
        return Err(CustomError::VaultEmpty);
    }
    Ok(TokenTransfer {
        from: ctx.vault_token_acc.key,
        to: ctx.user_token_acc.key,
        authority: ctx.vault_info_key,
        amount: ctx.vault_token_acc.amount,
        vault_signed: true,
    })
}

/// Why a teardown is refused, if it is.
pub open spec fn close_error(ctx: CloseVault) -> Option<CustomError> {
    if accounts_error(ctx) is Some {
        accounts_error(ctx)
    } else if ctx.vault_info.owner@ != ctx.signer@ {
        Some(CustomError::Unauthorized)
    } else if ctx.mint@ != ctx.vault_token_acc.mint@ || ctx.mint@ != ctx.vault_info.mint@ {
        Some(CustomError::InvalidMint)
    } else if ctx.vault_token_acc.amount != 0 {
        Some(CustomError::VaultNotEmpty)
    } else {
        None
    }
}

/// Checks a teardown and gives the closing of the empty holding account,
/// whose storage deposit goes to the signer. The record itself is then
/// removed, its storage deposit going to the signer too.
pub fn close_vault(ctx: &CloseVault) -> (r: Result<CloseAccountOrder, CustomError>)
    ensures
        r is Ok <==> close_error(*ctx) is None,
        r matches Err(e) ==> close_error(*ctx) == Some(e),
        r matches Ok(c) ==> {
            &&& c.account@ == ctx.vault_token_acc.key@
            &&& c.destination@ == ctx.signer@
            &&& c.authority@ == ctx.vault_info_key@
        },
{
    ctx.check()?;
    if !ctx.vault_info.owner.same(&ctx.signer) {
        return Err(CustomError::Unauthorized);
    }
    if !ctx.mint.same(&ctx.vault_token_acc.mint) || !ctx.mint.same(&ctx.vault_info.mint) {
        return Err(CustomError::InvalidMint);
    }
    if ctx.vault_token_acc.amount != 0 {
        return Err(CustomError::VaultNotEmpty);
    }
    Ok(CloseAccountOrder {
        account: ctx.vault_token_acc.key,
        destination: ctx.signer,
        authority: ctx.vault_info_key,
    })
}

} // verus!
