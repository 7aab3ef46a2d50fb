use vstd::prelude::*;

use crate::keys::Pubkey;

verus! {

/// The single source of truth for one asset's pool: who owns it, which
/// asset it custodies, and the current points-to-token exchange rate.
#[derive(Clone, Copy, PartialEq, Eq, Structural, Debug)]
pub struct Vault {
    /// The only identity allowed to deposit, pay out, set the rate, create
    /// points accounts, credit points and configure the daily reward.
    pub owner: Pubkey,
    /// The asset this vault custodies.
    pub mint: Pubkey,
    /// Disambiguation nonce of the vault's derived address.
    pub bump: u8,
    /// Points required for one whole token (10^decimals base units).
    /// Zero means the rate is not yet configured, and redemption is refused.
    pub points_per_token: u64,
}

/// One user's accumulated points balance; one record per (vault, user).
#[derive(Clone, Copy, PartialEq, Eq, Structural, Debug)]
pub struct PointsAccount {
    /// The identity this balance belongs to; never reassigned.
    pub user: Pubkey,
    pub balance: u64,
    /// Disambiguation nonce of the record's derived address.
    pub bump: u8,
}

/// Owner-set reward size and cooldown for daily check-ins; at most one per
/// vault, fixed at creation.
#[derive(Clone, Copy, PartialEq, Eq, Structural, Debug)]
pub struct VaultConfig {
    /// Points granted by one accepted check-in; zero disables the feature.
    pub daily_check_in_points: u64,
    /// Minimum seconds between two accepted check-ins; always positive.
    pub cooldown_secs: u64,
    /// Disambiguation nonce of the record's derived address.
    pub bump: u8,
}

/// When a user last checked in; one record per (vault, user).
#[derive(Clone, Copy, PartialEq, Eq, Structural, Debug)]
pub struct DailyClaim {
    /// Timestamp of the last accepted check-in; zero means never claimed.
    pub last_claim_ts: i64,
    /// Disambiguation nonce of the record's derived address.
    pub bump: u8,
}

} // verus!
