use vstd::prelude::*;
use crate::accounts::TokenAccount;
use crate::distribution::{share_error, Distribution, ShareFunds, MAX_TARGETS};
use crate::error::CustomError;
use crate::vault::{
    accounts_error, close_error, deposit_error, withdraw_error, CloseVault, Deposit, VaultAccounts,
    WithDraw,
};

verus! {

/// The sum of a sequence of amounts.
pub open spec fn sum(s: Seq<nat>) -> nat
    decreases s.len(),
{
    if s.len() == 0 {
        0
    } else {
        sum(s.drop_last()) + s.last()
    }
}

impl Distribution {
    /// What a distribution pays, in order: the even share to each
    /// destination, then the remainder to the signer's account.
    pub open spec fn payouts(&self) -> Seq<nat> {
        Seq::new(self.num_targets as nat, |i: int| self.split_amount as nat).push(
            self.remainder as nat,
        )
    }
}

proof fn lemma_sum_repeat(x: nat, n: nat)
    ensures
        sum(Seq::new(n, |i: int| x)) == n * x,
    decreases n,
{
    if n > 0 {
        let m = (n - 1) as nat;
        let s = Seq::new(n, |i: int| x);
        lemma_sum_repeat(x, m);
        assert(s.drop_last() =~= Seq::new(m, |i: int| x));
        assert(s.last() == x);
        assert(sum(s.drop_last()) == m * x);
        assert(sum(s) == sum(s.drop_last()) + s.last());
        assert(n * x == m * x + x) by (nonlinear_arith)
            requires
                m == n - 1,
        ;
        assert(sum(s) == n * x);
    } else {
        assert(n * x == 0) by (nonlinear_arith)
            requires
                n == 0,
        ;
    }
}

/// A distribution pays each destination the balance divided by their
/// number, rounded down, and the signer's account the rest of the
/// division; all its payouts together come to the balance exactly.
pub proof fn lemma_distribution_pays_out_balance(d: Distribution)
    requires
        d.wf(),
    ensures
        d.payouts().len() == d.num_targets + 1,
        forall|i: int| 0 <= i < d.num_targets ==> d.payouts()[i] == d.total / d.num_targets,
        d.payouts()[d.num_targets as int] == d.total % d.num_targets,
        sum(d.payouts()) == d.total,
{
    let p = d.payouts();
    let n = d.num_targets as nat;
    let each = Seq::new(n, |i: int| d.split_amount as nat);
    assert(p.drop_last() =~= each);
    lemma_sum_repeat(d.split_amount as nat, n);
    crate::distribution::lemma_split_recombines(d.total as int, d.num_targets as int);
}

/// The holding account of `ctx` with its balance set to `amount`.
pub open spec fn with_balance(ctx: VaultAccounts, amount: u64) -> VaultAccounts {
    VaultAccounts {
        vault_token_acc: TokenAccount { amount, ..ctx.vault_token_acc },
        ..ctx
    }
}

/// Once a distribution has paid everything out, the holding account is
/// empty, and a second distribution over the same destinations fails with
/// `VaultEmpty`.
pub proof fn lemma_second_distribution_fails(ctx: ShareFunds, n: nat, d: Distribution)
    requires
        share_error(ctx, n) is None,
        d.wf(),
        d.total == ctx.vault_token_acc.amount,
        d.num_targets == n,
    ensures
        ctx.vault_token_acc.amount - sum(d.payouts()) == 0,
        share_error(with_balance(ctx, (ctx.vault_token_acc.amount - sum(d.payouts())) as u64), n)
            == Some(CustomError::VaultEmpty),
{
    lemma_distribution_pays_out_balance(d);
}

/// A signer other than the vault's owner is refused with `Unauthorized` by
/// a deposit, a withdrawal and a distribution, wherever the checks that come
/// first pass; each only reads its accounts, so nothing changes.
pub proof fn lemma_unauthorized_caller_rejected(
    deposit: Deposit,
    amount: u64,
    accounts: VaultAccounts,
    n: nat,
)
    requires
        deposit.vault_info.owner@ != deposit.signer@,
        deposit.user_token_acc.mint@ == deposit.mint@,
        amount > 0,
        accounts.vault_info.owner@ != accounts.signer@,
        accounts_error(accounts) is None,
        1 <= n <= MAX_TARGETS,
        accounts.vault_token_acc.amount > 0,
    ensures
        deposit_error(deposit, amount) == Some(CustomError::Unauthorized),
        withdraw_error(accounts) == Some(CustomError::Unauthorized),
        share_error(accounts, n) == Some(CustomError::Unauthorized),
{
}

/// A teardown of a vault whose holding account is not empty fails with
/// `VaultNotEmpty`.
pub proof fn lemma_teardown_needs_empty_vault(ctx: CloseVault)
    requires
        accounts_error(ctx) is None,
        ctx.vault_info.owner@ == ctx.signer@,
        ctx.vault_info.mint@ == ctx.mint@,
        ctx.vault_token_acc.amount != 0,
    ensures
        close_error(ctx) == Some(CustomError::VaultNotEmpty),
{
}

/// After a withdrawal has taken the holding account's whole balance out,
/// the holding account is empty and a teardown of the vault succeeds.
pub proof fn lemma_teardown_after_withdrawal(ctx: WithDraw)
    requires
        withdraw_error(ctx) is None,
    ensures
        close_error(with_balance(ctx, (ctx.vault_token_acc.amount - ctx.vault_token_acc.amount) as u64))
            is None,
{
}

} // verus!
