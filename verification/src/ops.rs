use vstd::prelude::*;

use crate::accounts::{DailyClaim, PointsAccount, Vault, VaultConfig};
use crate::error::VaultError;
use crate::keys::Pubkey;
use crate::math::{sat_add_u64, token_amount, token_amount_spec};
use crate::transfer::{Holding, TransferAction, TransferAuthority};

verus! {

/// Creates the vault record for one asset: the caller becomes owner and the
/// redemption rate starts unset. The host stores the record at the vault's
/// derived address and refuses a second creation for the same asset.
pub fn initialize(owner: Pubkey, mint: Pubkey, bump: u8) -> (vault: Vault)
    ensures
        vault == (Vault { owner, mint, bump, points_per_token: 0 }),
{
    Vault { owner, mint, bump, points_per_token: 0 }
}

/// The owner moves `amount` of their own holding into custody. On success
/// the returned action is the transfer to perform: caller's holding to
/// custody, under the caller's own signature. No record changes.
pub fn deposit(vault: &Vault, caller: Pubkey, amount: u64) -> (r: Result<TransferAction, VaultError>)
    ensures
        caller != vault.owner ==> r == Err::<TransferAction, VaultError>(VaultError::Unauthorized),
        caller == vault.owner && amount == 0 ==> r == Err::<TransferAction, VaultError>(
            VaultError::InsufficientPoints,
        ),
        caller == vault.owner && amount > 0 ==> r == Ok::<TransferAction, VaultError>(
            (TransferAction {
                source: Holding::Holder(caller),
                dest: Holding::Custody,
                amount,
                authority: TransferAuthority::CallerSignature,
            }),
        ),
{
    if caller != vault.owner {
        return Err(VaultError::Unauthorized);
    }
    if amount == 0 {
        return Err(VaultError::InsufficientPoints);
    }
    Ok(TransferAction {
        source: Holding::Holder(caller),
        dest: Holding::Custody,
        amount,
        authority: TransferAuthority::CallerSignature,
    })
}

/// The owner pushes `amount` from custody to any recipient, e.g. when
/// fulfilling a redemption by hand; the vault's derived authority signs the
/// returned transfer. No record changes.
pub fn transfer_to(vault: &Vault, caller: Pubkey, recipient: Pubkey, amount: u64) -> (r: Result<
    TransferAction,
    VaultError,
>)
    ensures
        caller != vault.owner ==> r == Err::<TransferAction, VaultError>(VaultError::Unauthorized),
        caller == vault.owner ==> r == Ok::<TransferAction, VaultError>(
            (TransferAction {
                source: Holding::Custody,
                dest: Holding::Holder(recipient),
                amount,
                authority: TransferAuthority::VaultAuthority,
            }),
        ),
{
    if caller != vault.owner {
        return Err(VaultError::Unauthorized);
    }
    Ok(TransferAction {
        source: Holding::Custody,
        dest: Holding::Holder(recipient),
        amount,
        authority: TransferAuthority::VaultAuthority,
    })
}

/// The owner sets how many points one whole token costs. Zero is refused so
/// that a configured rate is exactly a positive one.
pub fn set_redemption_rate(vault: &mut Vault, caller: Pubkey, points_per_token: u64) -> (r: Result<
    (),
    VaultError,
>)
    ensures
        r is Err ==> *final(vault) == *old(vault),
        caller != old(vault).owner ==> r == Err::<(), VaultError>(VaultError::Unauthorized),
        caller == old(vault).owner && points_per_token == 0 ==> r == Err::<(), VaultError>(
            VaultError::RedemptionRateNotSet,
        ),
        caller == old(vault).owner && points_per_token > 0 ==> r == Ok::<(), VaultError>(())
            && *final(vault) == (Vault { points_per_token, ..*old(vault) }),
{
    if caller != vault.owner {
        return Err(VaultError::Unauthorized);
    }
    if points_per_token == 0 {
        return Err(VaultError::RedemptionRateNotSet);
    }
    vault.points_per_token = points_per_token;
    Ok(())
}

/// The owner creates the points record for `user`, starting at zero. The
/// host stores it at the derived points address and refuses a duplicate.
pub fn create_points_account(vault: &Vault, caller: Pubkey, user: Pubkey, bump: u8) -> (r: Result<
    PointsAccount,
    VaultError,
>)
    ensures
        caller != vault.owner ==> r == Err::<PointsAccount, VaultError>(VaultError::Unauthorized),
        caller == vault.owner ==> r == Ok::<PointsAccount, VaultError>(
            (PointsAccount { user, balance: 0, bump }),
        ),
{
    if caller != vault.owner {
        return Err(VaultError::Unauthorized);
    }
    Ok(PointsAccount { user, balance: 0, bump })
}

/// The owner credits `amount` points to an existing points account. The
/// balance is capped at the largest 64-bit value rather than overflowing.
pub fn credit_points(
    vault: &Vault,
    caller: Pubkey,
    points_account: &mut PointsAccount,
    amount: u64,
) -> (r: Result<(), VaultError>)
    ensures
        r is Err ==> *final(points_account) == *old(points_account),
        caller != vault.owner ==> r == Err::<(), VaultError>(VaultError::Unauthorized),
        caller == vault.owner && amount == 0 ==> r == Err::<(), VaultError>(
            VaultError::InsufficientPoints,
        ),
        caller == vault.owner && amount > 0 ==> r == Ok::<(), VaultError>(())
            && final(points_account).balance == sat_add_u64(
                old(points_account).balance as int,
                amount as int,
            )
            && final(points_account).user == old(points_account).user
            && final(points_account).bump == old(points_account).bump,
{
    if caller != vault.owner {
        return Err(VaultError::Unauthorized);
    }
    if amount == 0 {
        return Err(VaultError::InsufficientPoints);
    }
    points_account.balance = points_account.balance.saturating_add(amount);
    Ok(())
}

/// The owner configures the daily check-in reward once: the reward size and
/// the cooldown between two accepted check-ins. A zero cooldown is refused.
pub fn init_daily_config(
    vault: &Vault,
    caller: Pubkey,
    daily_check_in_points: u64,
    cooldown_secs: u64,
    bump: u8,
) -> (r: Result<VaultConfig, VaultError>)
    ensures
        caller != vault.owner ==> r == Err::<VaultConfig, VaultError>(VaultError::Unauthorized),
        caller == vault.owner && cooldown_secs == 0 ==> r == Err::<VaultConfig, VaultError>(
            VaultError::DailyCheckInNotAvailable,
        ),
        caller == vault.owner && cooldown_secs > 0 ==> r == Ok::<VaultConfig, VaultError>(
            (VaultConfig { daily_check_in_points, cooldown_secs, bump }),
        ),
{
    if caller != vault.owner {
        return Err(VaultError::Unauthorized);
    }
    if cooldown_secs == 0 {
        return Err(VaultError::DailyCheckInNotAvailable);
    }
    Ok(VaultConfig { daily_check_in_points, cooldown_secs, bump })
}

/// A user creates their own claim record (never claimed) and points record
/// (zero balance) in one step. Nothing else can refuse this: the only
/// failure is the host's guard against records that already exist.
pub fn create_user_daily(user: Pubkey, claim_bump: u8, points_bump: u8) -> (r: (
    DailyClaim,
    PointsAccount,
))
    ensures
        r == (
            (DailyClaim { last_claim_ts: 0, bump: claim_bump }),
            (PointsAccount { user, balance: 0, bump: points_bump }),
        ),
{
    (
        DailyClaim { last_claim_ts: 0, bump: claim_bump },
        PointsAccount { user, balance: 0, bump: points_bump },
    )
}

/// Whether a check-in at `now` is allowed: never claimed yet, or the
/// cooldown has fully elapsed. The boundary instant itself is eligible.
pub open spec fn check_in_eligible(last_claim_ts: i64, cooldown_secs: u64, now: i64) -> bool {
    last_claim_ts == 0 || last_claim_ts + cooldown_secs <= now
}

/// A user claims the daily reward for themselves. Accepted exactly when the
/// reward is configured positive and the cooldown has elapsed (or they never
/// claimed); then the claim instant is recorded and the reward is credited,
/// capped at the largest 64-bit value.
pub fn daily_check_in(
    config: &VaultConfig,
    daily_claim: &mut DailyClaim,
    points_account: &mut PointsAccount,
    caller: Pubkey,
    now: i64,
) -> (r: Result<(), VaultError>)
    ensures
        r is Err ==> *final(daily_claim) == *old(daily_claim)
            && *final(points_account) == *old(points_account),
        caller != old(points_account).user ==> r == Err::<(), VaultError>(VaultError::Unauthorized),
        caller == old(points_account).user && config.daily_check_in_points == 0
            ==> r == Err::<(), VaultError>(VaultError::DailyCheckInNotAvailable),
        caller == old(points_account).user && config.daily_check_in_points > 0
            && !check_in_eligible(old(daily_claim).last_claim_ts, config.cooldown_secs, now)
            ==> r == Err::<(), VaultError>(VaultError::DailyCheckInNotAvailable),
        caller == old(points_account).user && config.daily_check_in_points > 0
            && check_in_eligible(old(daily_claim).last_claim_ts, config.cooldown_secs, now)
            ==> r == Ok::<(), VaultError>(())
            && final(daily_claim).last_claim_ts == now
            && final(daily_claim).bump == old(daily_claim).bump
            && final(points_account).balance == sat_add_u64(
                old(points_account).balance as int,
                config.daily_check_in_points as int,
            )
            && final(points_account).user == old(points_account).user
            && final(points_account).bump == old(points_account).bump,
{
    if caller != points_account.user {
        return Err(VaultError::Unauthorized);
    }
    if config.daily_check_in_points == 0 {
        return Err(VaultError::DailyCheckInNotAvailable);
    }
    let eligible = daily_claim.last_claim_ts == 0 || (daily_claim.last_claim_ts as i128) + (
    config.cooldown_secs as i128) <= (now as i128);
    if !eligible {
        return Err(VaultError::DailyCheckInNotAvailable);
    }
    daily_claim.last_claim_ts = now;
    points_account.balance = points_account.balance.saturating_add(config.daily_check_in_points);
    Ok(())
}

/// The redemption decision on given records: which refusal applies, or the
/// exact token payout owed for the points debit.
pub open spec fn redeem_decision(
    vault: Vault,
    points_account: PointsAccount,
    decimals: u8,
    caller: Pubkey,
    points_amount: u64,
) -> Result<u64, VaultError> {
    if caller != points_account.user {
        Err(VaultError::Unauthorized)
    } else if points_amount == 0 {
        Err(VaultError::InsufficientPoints)
    } else if vault.points_per_token == 0 {
        Err(VaultError::RedemptionRateNotSet)
    } else if points_account.balance < points_amount {
        Err(VaultError::InsufficientPoints)
    } else if token_amount_spec(points_amount, decimals, vault.points_per_token) == 0 {
        Err(VaultError::ZeroTokenAmount)
    } else {
        Ok(token_amount_spec(points_amount, decimals, vault.points_per_token))
    }
}

/// A user redeems their own points for tokens. On success the points are
/// debited and the returned action moves the payout from custody to the
/// caller under the vault's authority; the host must apply the debit and
/// the transfer as one atomic unit, rolling the debit back if the transfer
/// fails.
pub fn redeem(
    vault: &Vault,
    points_account: &mut PointsAccount,
    decimals: u8,
    caller: Pubkey,
    points_amount: u64,
) -> (r: Result<(u64, TransferAction), VaultError>)
    ensures
        r is Err ==> *final(points_account) == *old(points_account),
        r matches Err(e) ==> redeem_decision(
            *vault,
            *old(points_account),
            decimals,
            caller,
            points_amount,
        ) == Err::<u64, VaultError>(e),
        r matches Ok((token_amount, action)) ==> redeem_decision(
            *vault,
            *old(points_account),
            decimals,
            caller,
            points_amount,
        ) == Ok::<u64, VaultError>(token_amount)
            && final(points_account).balance == old(points_account).balance - points_amount
            && final(points_account).user == old(points_account).user
            && final(points_account).bump == old(points_account).bump
            && action == (TransferAction {
                source: Holding::Custody,
                dest: Holding::Holder(caller),
                amount: token_amount,
                authority: TransferAuthority::VaultAuthority,
            }),
{
    if caller != points_account.user {
        return Err(VaultError::Unauthorized);
    }
    if points_amount == 0 {
        return Err(VaultError::InsufficientPoints);
    }
    if vault.points_per_token == 0 {
        return Err(VaultError::RedemptionRateNotSet);
    }
    if points_account.balance < points_amount {
        return Err(VaultError::InsufficientPoints);
    }
    let tokens = token_amount(points_amount, decimals, vault.points_per_token);
    if tokens == 0 {
        return Err(VaultError::ZeroTokenAmount);
    }
    points_account.balance = points_account.balance.saturating_sub(points_amount);
    Ok(
        (
            tokens,
            TransferAction {
                source: Holding::Custody,
                dest: Holding::Holder(caller),
                amount: tokens,
                authority: TransferAuthority::VaultAuthority,
            },
        ),
    )
}

} // verus!
