use vstd::prelude::*;

use crate::accounts::{PointsAccount, Vault};
use crate::error::VaultError;
use crate::keys::Pubkey;
use crate::ops;
use crate::transfer::transfer_tokens;

verus! {

/// How a settled operation ended: the asset moved (carrying how many base
/// units), the operation was refused before any state changed, or the
/// transfer primitive itself failed and everything was left as it was.
#[derive(Clone, Copy, PartialEq, Eq, Structural, Debug)]
pub enum Settled {
    Moved(u64),
    Refused(VaultError),
    TransferFailed,
}

/// Deposit settled against in-model balances: the owner's holding and the
/// custody pool. Either the amount moves in full, or nothing changes.
pub fn deposit_settled(
    vault: &Vault,
    caller: Pubkey,
    caller_tokens: &mut u64,
    custody_tokens: &mut u64,
    amount: u64,
) -> (r: Settled)
    ensures
        !(r is Moved) ==> *final(caller_tokens) == *old(caller_tokens)
            && *final(custody_tokens) == *old(custody_tokens),
        caller != vault.owner ==> r == Settled::Refused(VaultError::Unauthorized),
        caller == vault.owner && amount == 0 ==> r == Settled::Refused(
            VaultError::InsufficientPoints,
        ),
        caller == vault.owner && amount > 0 && (*old(caller_tokens) < amount || *old(custody_tokens)
            + amount > u64::MAX) ==> r == Settled::TransferFailed,
        caller == vault.owner && amount > 0 && *old(caller_tokens) >= amount && *old(custody_tokens)
            + amount <= u64::MAX ==> r == Settled::Moved(amount)
            && *final(caller_tokens) == *old(caller_tokens) - amount
            && *final(custody_tokens) == *old(custody_tokens) + amount,
{
    match ops::deposit(vault, caller, amount) {
        Err(e) => Settled::Refused(e),
        Ok(action) => {
            if transfer_tokens(caller_tokens, custody_tokens, action.amount) {
                Settled::Moved(action.amount)
            } else {
                Settled::TransferFailed
            }
        },
    }
}

/// Transfer-out settled against in-model balances: the custody pool and the
/// recipient's holding. Either the amount moves in full, or nothing changes.
pub fn transfer_to_settled(
    vault: &Vault,
    caller: Pubkey,
    recipient: Pubkey,
    custody_tokens: &mut u64,
    recipient_tokens: &mut u64,
    amount: u64,
) -> (r: Settled)
    ensures
        !(r is Moved) ==> *final(custody_tokens) == *old(custody_tokens)
            && *final(recipient_tokens) == *old(recipient_tokens),
        caller != vault.owner ==> r == Settled::Refused(VaultError::Unauthorized),
        caller == vault.owner && (*old(custody_tokens) < amount || *old(recipient_tokens) + amount
            > u64::MAX) ==> r == Settled::TransferFailed,
        caller == vault.owner && *old(custody_tokens) >= amount && *old(recipient_tokens) + amount
            <= u64::MAX ==> r == Settled::Moved(amount)
            && *final(custody_tokens) == *old(custody_tokens) - amount
            && *final(recipient_tokens) == *old(recipient_tokens) + amount,
{
    match ops::transfer_to(vault, caller, recipient, amount) {
        Err(e) => Settled::Refused(e),
        Ok(action) => {
            if transfer_tokens(custody_tokens, recipient_tokens, action.amount) {
                Settled::Moved(action.amount)
            } else {
                Settled::TransferFailed
            }
        },
    }
}

/// Redemption settled against in-model balances. The points debit is
/// buffered and committed only after the transfer succeeds, so points are
/// never debited without the payout moving, and the payout never moves
/// without the debit: one atomic unit, or no change at all.
pub fn redeem_settled(
    vault: &Vault,
    points_account: &mut PointsAccount,
    custody_tokens: &mut u64,
    user_tokens: &mut u64,
    decimals: u8,
    caller: Pubkey,
    points_amount: u64,
) -> (r: Settled)
    ensures
        !(r is Moved) ==> *final(points_account) == *old(points_account)
            && *final(custody_tokens) == *old(custody_tokens)
            && *final(user_tokens) == *old(user_tokens),
        ops::redeem_decision(*vault, *old(points_account), decimals, caller, points_amount)
            matches Err(e) ==> r == Settled::Refused(e),
        ({
            let d = ops::redeem_decision(
                *vault,
                *old(points_account),
                decimals,
                caller,
                points_amount,
            );
            d is Ok && (*old(custody_tokens) < d->Ok_0 || *old(user_tokens) + d->Ok_0 > u64::MAX)
                ==> r == Settled::TransferFailed
        }),
        ({
            let d = ops::redeem_decision(
                *vault,
                *old(points_account),
                decimals,
                caller,
                points_amount,
            );
            d is Ok && *old(custody_tokens) >= d->Ok_0 && *old(user_tokens) + d->Ok_0 <= u64::MAX
                ==> r == Settled::Moved(d->Ok_0)
                && final(points_account).balance == old(points_account).balance - points_amount
                && final(points_account).user == old(points_account).user
                && final(points_account).bump == old(points_account).bump
                && *final(custody_tokens) == *old(custody_tokens) - d->Ok_0
                && *final(user_tokens) == *old(user_tokens) + d->Ok_0
        }),
{
    let mut debited = *points_account;
    match ops::redeem(vault, &mut debited, decimals, caller, points_amount) {
        Err(e) => Settled::Refused(e),
        Ok((token_amount, _action)) => {
            if transfer_tokens(custody_tokens, user_tokens, token_amount) {
                *points_account = debited;
                Settled::Moved(token_amount)
            } else {
                Settled::TransferFailed
            }
        },
    }
}

} // verus!
