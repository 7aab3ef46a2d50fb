use vstd::prelude::*;

verus! {

/// Why an operation was refused. Every check runs before any mutation, so a
/// refused operation leaves every record exactly as it was.
#[derive(Clone, Copy, PartialEq, Eq, Structural, Debug)]
pub enum VaultError {
    /// The caller is not the identity the record designates for this operation.
    Unauthorized,
    /// Redemption attempted before `points_per_token` was set, or an attempt
    /// to set the rate to zero.
    RedemptionRateNotSet,
    /// A points debit exceeds the current balance, or a credit/redeem amount
    /// of zero was supplied.
    InsufficientPoints,
    /// The computed token payout rounds to zero at the current rate.
    ZeroTokenAmount,
    /// Daily check-in is not configured, configured with a zero reward, or
    /// the cooldown window has not yet elapsed.
    DailyCheckInNotAvailable,
}

} // verus!
