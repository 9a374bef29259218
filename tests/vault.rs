use anchor_lang::solana_program::program_pack::Pack;
use anchor_lang::solana_program::pubkey::Pubkey;
use anchor_spl::token::spl_token::state::{Account as SplAccount, AccountState};
use token_splitter::{
    close_vault, deposit_vault, initialize_vault, read_token_account, record_deposit,
    record_withdrawal, share_funds, token_program_id, vault_signer_seeds, withdraw, AccountInfo,
    CustomError, Deposit, Initialize, Key, TokenAccount, VaultAccounts, VaultInfo, MAX_TARGETS,
};

const OWNER: u8 = 1;
const MINT: u8 = 2;
const VAULT_INFO: u8 = 3;
const VAULT_TOKEN: u8 = 4;
const USER_TOKEN: u8 = 5;
const STRANGER: u8 = 9;
const OTHER_MINT: u8 = 8;

fn key(b: u8) -> Key {
    Key { bytes: [b; 32] }
}

fn vault_info(amount: u64) -> VaultInfo {
    VaultInfo {
        owner: key(OWNER),
        amount,
        mint: key(MINT),
        vault_info_bump: 254,
        vault_token_bump: 253,
        created_at: 1_700_000_000,
    }
}

fn token_account(k: u8, mint: u8, owner: u8, amount: u64) -> TokenAccount {
    TokenAccount { key: key(k), mint: key(mint), owner: key(owner), amount }
}

/// Accounts of a well-formed vault holding `balance`, operated by `signer`.
fn accounts(balance: u64, signer: u8) -> VaultAccounts {
    VaultAccounts {
        vault_info: vault_info(balance),
        vault_info_key: key(VAULT_INFO),
        vault_token_acc: token_account(VAULT_TOKEN, MINT, VAULT_INFO, balance),
        signer: key(signer),
        user_token_acc: token_account(USER_TOKEN, MINT, signer, 0),
        mint: key(MINT),
    }
}

fn deposit_ctx(signer: u8) -> Deposit {
    Deposit {
        vault_info: vault_info(0),
        vault_token_acc: token_account(VAULT_TOKEN, MINT, VAULT_INFO, 0),
        user_token_acc: token_account(USER_TOKEN, MINT, signer, 1000),
        signer: key(signer),
        mint: key(MINT),
    }
}

fn packed_token_account(mint: u8, owner: u8, amount: u64, state: AccountState) -> Vec<u8> {
    let a = SplAccount {
        mint: Pubkey::new_from_array([mint; 32]),
        owner: Pubkey::new_from_array([owner; 32]),
        amount,
        state,
        ..SplAccount::default()
    };
    let mut data = vec![0u8; SplAccount::LEN];
    SplAccount::pack(a, &mut data).unwrap();
    data
}

fn target(k: u8, mint: u8) -> AccountInfo {
    AccountInfo {
        key: key(k),
        owner: token_program_id(),
        data: packed_token_account(mint, k, 0, AccountState::Initialized),
    }
}

fn targets(n: usize) -> Vec<AccountInfo> {
    (0..n).map(|i| target(100 + i as u8, MINT)).collect()
}

/// Runs a whole distribution as the ledger would see it: the transfers in
/// order, as (destination, amount), then the record settled.
fn run_distribution(
    ctx: &VaultAccounts,
    tgts: &[AccountInfo],
    record: &mut VaultInfo,
) -> Result<Vec<(Key, u64)>, CustomError> {
    let mut d = share_funds(ctx, tgts.len())?;
    let mut paid = Vec::new();
    for t in tgts {
        let tr = d.pay_target(t)?;
        assert!(tr.vault_signed);
        assert!(tr.from.same(&key(VAULT_TOKEN)));
        assert!(tr.authority.same(&key(VAULT_INFO)));
        paid.push((tr.to, tr.amount));
    }
    if let Some(tr) = d.remainder_transfer() {
        assert!(tr.to.same(&key(USER_TOKEN)));
        paid.push((tr.to, tr.amount));
    }
    d.settle(record)?;
    Ok(paid)
}

#[test]
fn token_program_id_matches_spl_token() {
    assert_eq!(token_program_id().bytes, anchor_spl::token::ID.to_bytes());
}

#[test]
fn initialize_creates_empty_record() {
    let ctx = Initialize { signer: key(OWNER), mint: key(MINT), vault_info_bump: 7, vault_token_bump: 6 };
    let v = initialize_vault(&ctx, 42);
    assert!(v.owner.same(&key(OWNER)));
    assert!(v.mint.same(&key(MINT)));
    assert_eq!(v.amount, 0);
    assert_eq!(v.vault_info_bump, 7);
    assert_eq!(v.vault_token_bump, 6);
    assert_eq!(v.created_at, 42);
}

#[test]
fn deposit_adds_to_record() {
    let ctx = deposit_ctx(OWNER);
    let t = deposit_vault(&ctx, 250).unwrap();
    assert!(t.from.same(&key(USER_TOKEN)));
    assert!(t.to.same(&key(VAULT_TOKEN)));
    assert!(t.authority.same(&key(OWNER)));
    assert_eq!(t.amount, 250);
    assert!(!t.vault_signed);
    let mut v = vault_info(100);
    record_deposit(&mut v, 250).unwrap();
    assert_eq!(v.amount, 350);
}

#[test]
fn deposit_of_zero_fails() {
    let ctx = deposit_ctx(OWNER);
    assert_eq!(deposit_vault(&ctx, 0).unwrap_err(), CustomError::ZeroAmount);
    assert_eq!(ctx.vault_info.amount, 0);
}

#[test]
fn deposit_by_stranger_is_unauthorized() {
    let ctx = deposit_ctx(STRANGER);
    assert_eq!(deposit_vault(&ctx, 5).unwrap_err(), CustomError::Unauthorized);
}

#[test]
fn deposit_of_other_mint_fails() {
    let mut ctx = deposit_ctx(OWNER);
    ctx.mint = key(OTHER_MINT);
    ctx.user_token_acc.mint = key(OTHER_MINT);
    assert_eq!(deposit_vault(&ctx, 5).unwrap_err(), CustomError::WrongMint);
    let mut ctx = deposit_ctx(OWNER);
    ctx.user_token_acc.mint = key(OTHER_MINT);
    assert_eq!(deposit_vault(&ctx, 5).unwrap_err(), CustomError::InvalidMint);
}

#[test]
fn deposit_overflow_changes_nothing() {
    let mut v = vault_info(u64::MAX - 1);
    assert_eq!(record_deposit(&mut v, 2).unwrap_err(), CustomError::Overflow);
    assert_eq!(v.amount, u64::MAX - 1);
    record_deposit(&mut v, 1).unwrap();
    assert_eq!(v.amount, u64::MAX);
}

#[test]
fn withdraw_takes_whole_balance() {
    let ctx = accounts(640, OWNER);
    let t = withdraw(&ctx).unwrap();
    assert!(t.from.same(&key(VAULT_TOKEN)));
    assert!(t.to.same(&key(USER_TOKEN)));
    assert!(t.authority.same(&key(VAULT_INFO)));
    assert_eq!(t.amount, 640);
    assert!(t.vault_signed);
    let mut v = ctx.vault_info;
    record_withdrawal(&mut v, t.amount).unwrap();
    assert_eq!(v.amount, 0);
}

#[test]
fn withdraw_errors() {
    assert_eq!(withdraw(&accounts(0, OWNER)).unwrap_err(), CustomError::VaultEmpty);
    assert_eq!(withdraw(&accounts(10, STRANGER)).unwrap_err(), CustomError::Unauthorized);
    let mut ctx = accounts(10, OWNER);
    ctx.user_token_acc.owner = key(STRANGER);
    assert_eq!(withdraw(&ctx).unwrap_err(), CustomError::WrongOwner);
    let mut ctx = accounts(10, OWNER);
    ctx.vault_token_acc.owner = key(STRANGER);
    assert_eq!(withdraw(&ctx).unwrap_err(), CustomError::InvalidVaultTokenAccount);
    let mut ctx = accounts(10, OWNER);
    ctx.vault_token_acc.mint = key(OTHER_MINT);
    assert_eq!(withdraw(&ctx).unwrap_err(), CustomError::InvalidMint);
    let mut ctx = accounts(10, OWNER);
    ctx.vault_info.mint = key(OTHER_MINT);
    assert_eq!(withdraw(&ctx).unwrap_err(), CustomError::WrongMint);
}

#[test]
fn withdrawal_beyond_record_fails() {
    let mut v = vault_info(5);
    assert_eq!(record_withdrawal(&mut v, 6).unwrap_err(), CustomError::Overflow);
    assert_eq!(v.amount, 5);
}

#[test]
fn distribute_hundred_over_three() {
    let ctx = accounts(100, OWNER);
    let mut record = ctx.vault_info;
    let paid = run_distribution(&ctx, &targets(3), &mut record).unwrap();
    assert_eq!(paid.len(), 4);
    for (i, (to, amount)) in paid.iter().take(3).enumerate() {
        assert!(to.same(&key(100 + i as u8)));
        assert_eq!(*amount, 33);
    }
    assert_eq!(paid[3].1, 1);
    assert_eq!(record.amount, 0);
}

#[test]
fn distribute_seven_over_ten() {
    let ctx = accounts(7, OWNER);
    let mut record = ctx.vault_info;
    let paid = run_distribution(&ctx, &targets(10), &mut record).unwrap();
    assert_eq!(paid.len(), 11);
    assert!(paid.iter().take(10).all(|p| p.1 == 0));
    assert_eq!(paid[10].1, 7);
    assert_eq!(record.amount, 0);
}

#[test]
fn distribute_even_split_has_no_remainder() {
    let ctx = accounts(20, OWNER);
    let mut record = ctx.vault_info;
    let paid = run_distribution(&ctx, &targets(20), &mut record).unwrap();
    assert_eq!(paid.len(), 20);
    assert!(paid.iter().all(|p| p.1 == 1));
    assert_eq!(record.amount, 0);
}

#[test]
fn distribute_payouts_sum_to_balance() {
    for (balance, n) in [(1u64, 1usize), (99, 7), (1000, 20), (u64::MAX, 19), (5, 20)] {
        let ctx = accounts(balance, OWNER);
        let mut record = ctx.vault_info;
        let paid = run_distribution(&ctx, &targets(n), &mut record).unwrap();
        let total: u128 = paid.iter().map(|p| p.1 as u128).sum();
        assert_eq!(total, balance as u128);
        assert!(paid.iter().take(n).all(|p| p.1 == balance / n as u64));
        assert_eq!(record.amount, 0);
    }
}

#[test]
fn distribute_to_twenty_one_fails() {
    let ctx = accounts(100, OWNER);
    assert_eq!(share_funds(&ctx, MAX_TARGETS + 1).unwrap_err(), CustomError::MaxLimitError);
    assert_eq!(ctx.vault_info.amount, 100);
}

#[test]
fn distribute_to_nobody_fails() {
    assert_eq!(share_funds(&accounts(100, OWNER), 0).unwrap_err(), CustomError::NoTargets);
}

#[test]
fn second_distribution_finds_vault_empty() {
    let ctx = accounts(100, OWNER);
    let mut record = ctx.vault_info;
    let paid = run_distribution(&ctx, &targets(3), &mut record).unwrap();
    let left = 100 - paid.iter().map(|p| p.1).sum::<u64>();
    let mut after = ctx;
    after.vault_info = record;
    after.vault_token_acc.amount = left;
    assert_eq!(share_funds(&after, 3).unwrap_err(), CustomError::VaultEmpty);
}

#[test]
fn distribute_by_stranger_is_unauthorized() {
    assert_eq!(share_funds(&accounts(100, STRANGER), 3).unwrap_err(), CustomError::Unauthorized);
}

#[test]
fn target_of_other_program_is_refused() {
    let ctx = accounts(100, OWNER);
    let mut d = share_funds(&ctx, 2).unwrap();
    let mut t = target(100, MINT);
    t.owner = key(STRANGER);
    assert_eq!(d.pay_target(&t).unwrap_err(), CustomError::InvalidTokenAccount);
    assert_eq!(d.paid, 0);
}

#[test]
fn target_without_data_is_refused() {
    let mut d = share_funds(&accounts(100, OWNER), 2).unwrap();
    let t = AccountInfo { key: key(100), owner: token_program_id(), data: Vec::new() };
    assert_eq!(d.pay_target(&t).unwrap_err(), CustomError::AccountNotInitialized);
}

#[test]
fn target_with_bad_data_is_refused() {
    let mut d = share_funds(&accounts(100, OWNER), 2).unwrap();
    let uninit = AccountInfo {
        key: key(100),
        owner: token_program_id(),
        data: packed_token_account(MINT, 100, 0, AccountState::Uninitialized),
    };
    assert_eq!(d.pay_target(&uninit).unwrap_err(), CustomError::InvalidTokenAccount);
    let short = AccountInfo { key: key(100), owner: token_program_id(), data: vec![0u8; 64] };
    assert_eq!(d.pay_target(&short).unwrap_err(), CustomError::InvalidTokenAccount);
    let mut data = packed_token_account(MINT, 100, 0, AccountState::Initialized);
    data[72] = 2;
    let bad_tag = AccountInfo { key: key(100), owner: token_program_id(), data };
    assert_eq!(d.pay_target(&bad_tag).unwrap_err(), CustomError::InvalidTokenAccount);
    let frozen = AccountInfo {
        key: key(100),
        owner: token_program_id(),
        data: packed_token_account(MINT, 100, 0, AccountState::Frozen),
    };
    assert!(d.pay_target(&frozen).is_ok());
}

#[test]
fn target_of_other_mint_is_refused() {
    let mut d = share_funds(&accounts(100, OWNER), 2).unwrap();
    assert_eq!(d.pay_target(&target(100, MINT)).unwrap().amount, 50);
    assert_eq!(d.pay_target(&target(101, OTHER_MINT)).unwrap_err(), CustomError::InvalidMint);
    assert_eq!(d.paid, 1);
}

#[test]
fn settle_with_desynced_record_fails() {
    let ctx = accounts(100, OWNER);
    let mut d = share_funds(&ctx, 1).unwrap();
    d.pay_target(&target(100, MINT)).unwrap();
    let mut record = vault_info(60);
    assert_eq!(d.settle(&mut record).unwrap_err(), CustomError::InsufficientFunds);
    assert_eq!(record.amount, 60);
}

#[test]
fn read_token_account_decodes_fields() {
    let info = AccountInfo {
        key: key(77),
        owner: token_program_id(),
        data: packed_token_account(MINT, 33, 123_456_789_012, AccountState::Initialized),
    };
    let a = read_token_account(&info).unwrap();
    assert!(a.key.same(&key(77)));
    assert!(a.mint.same(&key(MINT)));
    assert!(a.owner.same(&key(33)));
    assert_eq!(a.amount, 123_456_789_012);
}

#[test]
fn teardown_of_nonempty_vault_fails() {
    assert_eq!(close_vault(&accounts(1, OWNER)).unwrap_err(), CustomError::VaultNotEmpty);
}

#[test]
fn teardown_after_withdrawal_succeeds() {
    let ctx = accounts(300, OWNER);
    let t = withdraw(&ctx).unwrap();
    let mut after = ctx;
    record_withdrawal(&mut after.vault_info, t.amount).unwrap();
    after.vault_token_acc.amount -= t.amount;
    assert_eq!(after.vault_info.amount, 0);
    let c = close_vault(&after).unwrap();
    assert!(c.account.same(&key(VAULT_TOKEN)));
    assert!(c.destination.same(&key(OWNER)));
    assert!(c.authority.same(&key(VAULT_INFO)));
}

#[test]
fn teardown_errors() {
    assert_eq!(close_vault(&accounts(0, STRANGER)).unwrap_err(), CustomError::Unauthorized);
    let mut ctx = accounts(0, OWNER);
    ctx.vault_info.mint = key(OTHER_MINT);
    assert_eq!(close_vault(&ctx).unwrap_err(), CustomError::InvalidMint);
}

#[test]
fn signer_seeds_name_the_vault() {
    let seeds = vault_signer_seeds(&key(OWNER), &key(MINT), 254);
    assert_eq!(seeds.len(), 4);
    assert_eq!(seeds[0], b"vault_info".to_vec());
    assert_eq!(seeds[1], vec![OWNER; 32]);
    assert_eq!(seeds[2], vec![MINT; 32]);
    assert_eq!(seeds[3], vec![254u8]);
}
