use vstd::prelude::*;
use crate::accounts::{read_token_account, token_account_error, AccountInfo};
use crate::error::CustomError;
use crate::ledger::TokenTransfer;
use crate::state::{Key, VaultInfo};
use crate::vault::{accounts_error, same_but_amount, VaultAccounts};

verus! {

/// The accounts of a distribution; the destinations come separately.
pub type ShareFunds = VaultAccounts;

/// The most destinations that one distribution pays.
pub const MAX_TARGETS: usize = 20;

/// Why a distribution over `n` destinations is refused before anything
/// moves, if it is.
pub open spec fn share_error(ctx: ShareFunds, n: nat) -> Option<CustomError> {
    if accounts_error(ctx) is Some {
        accounts_error(ctx)
    } else if n == 0 {
        Some(CustomError::NoTargets)
    } else if n > MAX_TARGETS {
        Some(CustomError::MaxLimitError)
    } else if ctx.vault_token_acc.amount == 0 {
        Some(CustomError::VaultEmpty)
    } else if ctx.vault_info.owner@ != ctx.signer@ {
        Some(CustomError::Unauthorized)
    } else {
        None
    }
}

/// Why a destination is refused at the moment it is to be paid, if it is:
/// it must read as a token account of the vault's mint.
pub open spec fn target_error(target: AccountInfo, mint: Seq<u8>) -> Option<CustomError> {
    if token_account_error(target) is Some {
        token_account_error(target)
    } else if target.data@.subrange(0, 32) != mint {
        Some(CustomError::InvalidMint)
    } else {
        None
    }
}

/// A distribution in progress: the holding account's balance split evenly
/// over `num_targets` destinations, paid one after the other, with what
/// does not divide evenly going back to the signer's account.
#[derive(Debug, Clone, Copy)]
pub struct Distribution {
    /// The holding account's balance when the distribution began.
    pub total: u64,
    pub num_targets: u64,
    /// What each destination receives.
    pub split_amount: u64,
    /// What goes back to the signer's account.
    pub remainder: u64,
    /// How many destinations have been paid.
    pub paid: u64,
    pub mint: Key,
    pub vault_info_key: Key,
    pub vault_token_key: Key,
    pub user_token_key: Key,
}

impl Distribution {
    /// A distribution over one to twenty destinations, with the even share
    /// and the remainder of its starting balance, and no more paid than due.
    pub open spec fn wf(&self) -> bool {
        &&& 1 <= self.num_targets <= MAX_TARGETS
        &&& self.split_amount == self.total / self.num_targets
        &&& self.remainder == self.total % self.num_targets
        &&& self.paid <= self.num_targets
    }

    /// A transfer out of the holding account, signed by the vault.
    pub open spec fn is_payout(&self, t: TokenTransfer, to: Seq<u8>, amount: u64) -> bool {
        &&& t.from@ == self.vault_token_key@
        &&& t.to@ == to
        &&& t.authority@ == self.vault_info_key@
        &&& t.amount == amount
        &&& t.vault_signed
    }

    /// Whether two distributions differ at most in how many have been paid.
    pub open spec fn same_but_paid(&self, other: Distribution) -> bool {
        &&& self.total == other.total
        &&& self.num_targets == other.num_targets
        &&& self.split_amount == other.split_amount
        &&& self.remainder == other.remainder
        &&& self.mint == other.mint
        &&& self.vault_info_key == other.vault_info_key
        &&& self.vault_token_key == other.vault_token_key
        &&& self.user_token_key == other.user_token_key
    }

    /// Checks the destination due next, as it stands now, and gives the
    /// transfer of the even share to it. A refused destination aborts the
    /// whole distribution.
    pub fn pay_target(&mut self, target: &AccountInfo) -> (r: Result<TokenTransfer, CustomError>)
        requires
            old(self).wf(),
            old(self).paid < old(self).num_targets,
        ensures
            r is Ok <==> target_error(*target, old(self).mint@) is None,
            r matches Err(e) ==> target_error(*target, old(self).mint@) == Some(e),
            r is Err ==> *final(self) == *old(self),
            r matches Ok(t) ==> old(self).is_payout(t, target.key@, old(self).split_amount),
            r is Ok ==> final(self).paid == old(self).paid + 1,
            final(self).same_but_paid(*old(self)),
            final(self).wf(),
    {
        let acc = read_token_account(target)?;
        if !acc.mint.same(&self.mint) {
            return Err(CustomError::InvalidMint);
        }
        self.paid = self.paid + 1;
        Ok(TokenTransfer {
            from: self.vault_token_key,
            to: target.key,
            authority: self.vault_info_key,
            amount: self.split_amount,
            vault_signed: true,
        })
    }

    /// Once every destination is paid, the transfer of what remains to the
    /// signer's account, where anything remains.
    pub fn remainder_transfer(&self) -> (r: Option<TokenTransfer>)
        requires
            self.wf(),
            self.paid == self.num_targets,
        ensures
            r is Some <==> self.remainder > 0,
            r matches Some(t) ==> self.is_payout(t, self.user_token_key@, self.remainder),
    {
        if self.remainder > 0 {
            Some(TokenTransfer {
                from: self.vault_token_key,
                to: self.user_token_key,
                authority: self.vault_info_key,
                amount: self.remainder,
                vault_signed: true,
            })
        } else {
            None
        }
    }

    /// Once every transfer is done, takes what was paid out, the whole
    /// starting balance, off the record's accounted amount. Fails with
    /// `InsufficientFunds`, changing nothing, where the record accounts for
    /// less.
    pub fn settle(&self, vault_info: &mut VaultInfo) -> (r: Result<(), CustomError>)
        requires
            self.wf(),
            self.paid == self.num_targets,
        ensures
            r is Ok <==> self.total <= old(vault_info).amount,
            r is Ok ==> final(vault_info).amount == old(vault_info).amount - self.total,
            r is Ok ==> same_but_amount(*final(vault_info), *old(vault_info)),
            r is Err ==> r == Err::<(), CustomError>(CustomError::InsufficientFunds),
            r is Err ==> *final(vault_info) == *old(vault_info),
    {
        proof {
            lemma_split_recombines(self.total as int, self.num_targets as int);
        }
        let total_transfer = match self.split_amount.checked_mul(self.num_targets) {
            Some(x) => x.checked_add(self.remainder),
            None => None,
        };
        let total_transfer = match total_transfer {
            Some(t) => t,
            None => {
                return Err(CustomError::Overflow);
            },
        };
        match vault_info.amount.checked_sub(total_transfer) {
            Some(a) => {
                vault_info.amount = a;
                Ok(())
            },
            None => Err(CustomError::InsufficientFunds),
        }
    }
}

/// An amount split over `n` parts and its remainder add back up to it.
pub proof fn lemma_split_recombines(total: int, n: int)
    requires
        0 <= total,
        0 < n,
    ensures
        (total / n) * n + total % n == total,
        0 <= (total / n) * n <= total,
{
    assert((total / n) * n + total % n == total) by (nonlinear_arith)
        requires
            0 < n,
    ;
    assert(0 <= (total / n) * n) by (nonlinear_arith)
        requires
            0 <= total,
            0 < n,
    ;
}

/// Checks a distribution over `n` destinations and begins it: the holding
/// account's balance divided by `n`, rounded down, goes to each destination,
/// and the rest of the division to the signer's account.
pub fn share_funds(ctx: &ShareFunds, n: usize) -> (r: Result<Distribution, CustomError>)
    ensures
        r is Ok <==> share_error(*ctx, n as nat) is None,
        r matches Err(e) ==> share_error(*ctx, n as nat) == Some(e),
        r matches Ok(d) ==> {
            &&& d.wf()
            &&& d.total == ctx.vault_token_acc.amount
            &&& d.num_targets == n
            &&& d.split_amount == ctx.vault_token_acc.amount / (n as u64)
            &&& d.remainder == ctx.vault_token_acc.amount % (n as u64)
            &&& d.paid == 0
            &&& d.mint == ctx.vault_info.mint
            &&& d.vault_info_key == ctx.vault_info_key
            &&& d.vault_token_key == ctx.vault_token_acc.key
            &&& d.user_token_key == ctx.user_token_acc.key
        },
{
    ctx.check()?;
    if n == 0 {
        return Err(CustomError::NoTargets);
    }
    if n > MAX_TARGETS {
        return Err(CustomError::MaxLimitError);
    }
    if ctx.vault_token_acc.amount == 0 {
        return Err(CustomError::VaultEmpty);
    }
    if !ctx.vault_info.owner.same(&ctx.signer) {
        return Err(CustomError::Unauthorized);
    }
    let num_targets = n as u64;
    let total = ctx.vault_token_acc.amount;
    Ok(Distribution {
        total,
        num_targets,
        split_amount: total / num_targets,
        remainder: total % num_targets,
        paid: 0,
        mint: ctx.vault_info.mint,
        vault_info_key: ctx.vault_info_key,
        vault_token_key: ctx.vault_token_acc.key,
        user_token_key: ctx.user_token_acc.key,
    })
}

} // verus!
