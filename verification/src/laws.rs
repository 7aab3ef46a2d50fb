use vstd::prelude::*;

use crate::accounts::{PointsAccount, Vault};
use crate::math::{pow10, sat_add_u64, token_amount_spec};
use crate::ops::{check_in_eligible, redeem_decision};

verus! {

/// One balance-changing event in the life of a points account: a credit of
/// `amount` points (an owner credit, or an accepted check-in's reward), or a
/// successful redemption's debit of `points`.
pub enum PointsEvent {
    Credit { amount: u64 },
    Redeem { points: u64 },
}

/// Whether every redemption in `events` is covered by the balance at its
/// point, starting from `balance`: exactly what the operations enforce, a
/// redemption beyond the balance being refused before any mutation.
pub open spec fn events_covered(events: Seq<PointsEvent>, balance: int) -> bool
    decreases events.len(),
{
    events.len() == 0 || (match events[0] {
        PointsEvent::Credit { amount } => events_covered(
            events.drop_first(),
            sat_add_u64(balance, amount as int),
        ),
        PointsEvent::Redeem { points } => points <= balance && events_covered(
            events.drop_first(),
            balance - points,
        ),
    })
}

/// The balance after applying `events` to `balance`, crediting with the
/// same saturating addition the operations use.
pub open spec fn balance_after(events: Seq<PointsEvent>, balance: int) -> int
    decreases events.len(),
{
    if events.len() == 0 {
        balance
    } else {
        match events[0] {
            PointsEvent::Credit { amount } => balance_after(
                events.drop_first(),
                sat_add_u64(balance, amount as int),
            ),
            PointsEvent::Redeem { points } => balance_after(
                events.drop_first(),
                balance - points,
            ),
        }
    }
}

/// The sum of all credited amounts in `events`.
pub open spec fn credits_total(events: Seq<PointsEvent>) -> int
    decreases events.len(),
{
    if events.len() == 0 {
        0
    } else {
        (match events[0] {
            PointsEvent::Credit { amount } => amount as int,
            PointsEvent::Redeem { .. } => 0,
        }) + credits_total(events.drop_first())
    }
}

/// The sum of all redeemed amounts in `events`.
pub open spec fn redeems_total(events: Seq<PointsEvent>) -> int
    decreases events.len(),
{
    if events.len() == 0 {
        0
    } else {
        (match events[0] {
            PointsEvent::Credit { .. } => 0,
            PointsEvent::Redeem { points } => points as int,
        }) + redeems_total(events.drop_first())
    }
}

/// The credited total is never negative.
pub proof fn lemma_credits_total_nonneg(events: Seq<PointsEvent>)
    ensures
        credits_total(events) >= 0,
    decreases events.len(),
{
    if events.len() > 0 {
        lemma_credits_total_nonneg(events.drop_first());
    }
}

/// Conservation of points: over any sequence of credits, check-in rewards
/// and successful redemptions whose credited total stays within 64 bits,
/// the final balance is the starting balance plus everything credited minus
/// everything redeemed. (Past the 64-bit cap the credits saturate and the
/// balance falls short of that sum.)
pub proof fn lemma_points_conservation(events: Seq<PointsEvent>, start: int)
    requires
        0 <= start,
        events_covered(events, start),
        start + credits_total(events) <= u64::MAX,
    ensures
        redeems_total(events) <= start + credits_total(events),
        balance_after(events, start) == start + credits_total(events) - redeems_total(events),
    decreases events.len(),
{
    if events.len() > 0 {
        lemma_credits_total_nonneg(events.drop_first());
        match events[0] {
            PointsEvent::Credit { amount } => {
                assert(sat_add_u64(start, amount as int) == start + amount);
                lemma_points_conservation(events.drop_first(), start + amount);
            },
            PointsEvent::Redeem { points } => {
                lemma_points_conservation(events.drop_first(), start - points);
            },
        }
    }
}

/// Exact redemption arithmetic: wherever the widened product fits in 128
/// bits and the quotient fits in 64 bits, the payout is exactly
/// floor(points * 10^decimals / rate).
pub proof fn lemma_token_amount_exact(points_amount: u64, decimals: u8, points_per_token: u64)
    requires
        points_per_token > 0,
        points_amount * pow10(decimals as nat) <= u128::MAX,
        points_amount * pow10(decimals as nat) / (points_per_token as int) <= u64::MAX,
    ensures
        token_amount_spec(points_amount, decimals, points_per_token) == points_amount * pow10(
            decimals as nat,
        ) / (points_per_token as int),
{
    if points_amount == 0 {
        assert(0int * pow10(decimals as nat) == 0);
        assert(0int / (points_per_token as int) == 0);
    } else {
        assert(pow10(decimals as nat) <= points_amount * pow10(decimals as nat)) by (nonlinear_arith)
            requires
                points_amount >= 1,
                pow10(decimals as nat) >= 0,
        ;
    }
}

/// A redemption by the account's own user is refused exactly when the rate
/// is unset, the balance falls short, or the computed payout is zero (a
/// zero debit falling under the last, since it pays zero).
pub proof fn lemma_redeem_rejection(
    vault: Vault,
    points_account: PointsAccount,
    decimals: u8,
    points_amount: u64,
)
    ensures
        redeem_decision(vault, points_account, decimals, points_account.user, points_amount) is Err
            <==> (vault.points_per_token == 0 || points_amount > points_account.balance
            || token_amount_spec(points_amount, decimals, vault.points_per_token) == 0),
{
    if points_amount == 0 {
        assert(token_amount_spec(points_amount, decimals, vault.points_per_token) == 0);
    }
}

/// The cooldown gate between two check-ins: after a success recorded at a
/// nonzero instant `t1`, a second attempt at `t2` is refused while the
/// cooldown has not elapsed and accepted from the boundary instant on; an
/// accepted one credits exactly the daily reward while the balance stays
/// below the 64-bit cap.
pub proof fn lemma_second_check_in(
    t1: i64,
    cooldown_secs: u64,
    t2: i64,
    balance: u64,
    daily_points: u64,
)
    requires
        t1 != 0,
    ensures
        t2 - t1 < cooldown_secs ==> !check_in_eligible(t1, cooldown_secs, t2),
        t2 - t1 >= cooldown_secs ==> check_in_eligible(t1, cooldown_secs, t2),
        balance + daily_points <= u64::MAX ==> sat_add_u64(balance as int, daily_points as int)
            == balance + daily_points,
{
}

} // verus!
