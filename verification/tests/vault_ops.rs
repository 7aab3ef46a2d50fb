use reward_vault::accounts::{PointsAccount, Vault};
use reward_vault::error::VaultError;
use reward_vault::keys::Pubkey;
use reward_vault::ops;
use reward_vault::transfer::{Holding, TransferAuthority};

fn owner() -> Pubkey {
    Pubkey { hi: 10, lo: 1 }
}

fn stranger() -> Pubkey {
    Pubkey { hi: 66, lo: 6 }
}

fn mint() -> Pubkey {
    Pubkey { hi: 20, lo: 2 }
}

fn fresh_vault(points_per_token: u64) -> Vault {
    Vault { owner: owner(), mint: mint(), bump: 250, points_per_token }
}

#[test]
fn initialize_sets_owner_and_unset_rate() {
    let vault = ops::initialize(owner(), mint(), 255);
    assert_eq!(vault.owner, owner());
    assert_eq!(vault.mint, mint());
    assert_eq!(vault.bump, 255);
    assert_eq!(vault.points_per_token, 0);
}

#[test]
fn deposit_returns_caller_signed_transfer_into_custody() {
    let vault = fresh_vault(0);
    let action = ops::deposit(&vault, owner(), 700).unwrap();
    assert_eq!(action.source, Holding::Holder(owner()));
    assert_eq!(action.dest, Holding::Custody);
    assert_eq!(action.amount, 700);
    assert_eq!(action.authority, TransferAuthority::CallerSignature);
}

#[test]
fn deposit_by_stranger_is_unauthorized() {
    let vault = fresh_vault(0);
    assert_eq!(ops::deposit(&vault, stranger(), 700), Err(VaultError::Unauthorized));
}

#[test]
fn deposit_of_zero_is_refused() {
    let vault = fresh_vault(0);
    assert_eq!(ops::deposit(&vault, owner(), 0), Err(VaultError::InsufficientPoints));
}

#[test]
fn transfer_to_returns_vault_signed_transfer_out_of_custody() {
    let vault = fresh_vault(100);
    let recipient = Pubkey { hi: 30, lo: 3 };
    let action = ops::transfer_to(&vault, owner(), recipient, 4_000).unwrap();
    assert_eq!(action.source, Holding::Custody);
    assert_eq!(action.dest, Holding::Holder(recipient));
    assert_eq!(action.amount, 4_000);
    assert_eq!(action.authority, TransferAuthority::VaultAuthority);
}

#[test]
fn transfer_to_by_stranger_is_unauthorized() {
    let vault = fresh_vault(100);
    let recipient = Pubkey { hi: 30, lo: 3 };
    assert_eq!(ops::transfer_to(&vault, stranger(), recipient, 4_000), Err(VaultError::Unauthorized));
}

#[test]
fn set_redemption_rate_overwrites_rate() {
    let mut vault = fresh_vault(0);
    assert_eq!(ops::set_redemption_rate(&mut vault, owner(), 100), Ok(()));
    assert_eq!(vault.points_per_token, 100);
    assert_eq!(ops::set_redemption_rate(&mut vault, owner(), 250), Ok(()));
    assert_eq!(vault.points_per_token, 250);
    assert_eq!(vault.owner, owner());
    assert_eq!(vault.mint, mint());
    assert_eq!(vault.bump, 250);
}

#[test]
fn set_redemption_rate_refuses_zero() {
    let mut vault = fresh_vault(100);
    assert_eq!(ops::set_redemption_rate(&mut vault, owner(), 0), Err(VaultError::RedemptionRateNotSet));
    assert_eq!(vault, fresh_vault(100));
}

#[test]
fn set_redemption_rate_by_stranger_leaves_vault_unchanged() {
    let mut vault = fresh_vault(100);
    assert_eq!(ops::set_redemption_rate(&mut vault, stranger(), 9), Err(VaultError::Unauthorized));
    assert_eq!(vault, fresh_vault(100));
}

#[test]
fn create_points_account_starts_at_zero() {
    let vault = fresh_vault(0);
    let user = Pubkey { hi: 40, lo: 4 };
    let acct = ops::create_points_account(&vault, owner(), user, 7).unwrap();
    assert_eq!(acct, PointsAccount { user, balance: 0, bump: 7 });
}

#[test]
fn create_points_account_by_stranger_is_unauthorized() {
    let vault = fresh_vault(0);
    let user = Pubkey { hi: 40, lo: 4 };
    assert_eq!(ops::create_points_account(&vault, stranger(), user, 7), Err(VaultError::Unauthorized));
}

#[test]
fn credit_points_adds_exactly() {
    let vault = fresh_vault(0);
    let user = Pubkey { hi: 40, lo: 4 };
    let mut acct = PointsAccount { user, balance: 5, bump: 7 };
    assert_eq!(ops::credit_points(&vault, owner(), &mut acct, 37), Ok(()));
    assert_eq!(acct, PointsAccount { user, balance: 42, bump: 7 });
}

#[test]
fn credit_points_saturates_at_the_cap() {
    let vault = fresh_vault(0);
    let user = Pubkey { hi: 40, lo: 4 };
    let mut acct = PointsAccount { user, balance: u64::MAX - 1, bump: 7 };
    assert_eq!(ops::credit_points(&vault, owner(), &mut acct, 10), Ok(()));
    assert_eq!(acct.balance, u64::MAX);
}

#[test]
fn credit_points_of_zero_is_refused() {
    let vault = fresh_vault(0);
    let user = Pubkey { hi: 40, lo: 4 };
    let mut acct = PointsAccount { user, balance: 5, bump: 7 };
    assert_eq!(ops::credit_points(&vault, owner(), &mut acct, 0), Err(VaultError::InsufficientPoints));
    assert_eq!(acct.balance, 5);
}

#[test]
fn credit_points_by_stranger_leaves_account_unchanged() {
    let vault = fresh_vault(0);
    let user = Pubkey { hi: 40, lo: 4 };
    let mut acct = PointsAccount { user, balance: 5, bump: 7 };
    assert_eq!(ops::credit_points(&vault, stranger(), &mut acct, 37), Err(VaultError::Unauthorized));
    assert_eq!(acct, PointsAccount { user, balance: 5, bump: 7 });
}
