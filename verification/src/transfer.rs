use vstd::prelude::*;

use crate::keys::Pubkey;

verus! {

/// A holding of the custodied asset: the vault's pooled custody account, or
/// the token account of one identity.
#[derive(Clone, Copy, PartialEq, Eq, Structural, Debug)]
pub enum Holding {
    Custody,
    Holder(Pubkey),
}

/// Which capability signs a transfer: the caller's own signature over their
/// holding, or the vault's derived authority over the custody account.
#[derive(Clone, Copy, PartialEq, Eq, Structural, Debug)]
pub enum TransferAuthority {
    CallerSignature,
    VaultAuthority,
}

/// One invocation of the host ledger's transfer primitive, described in
/// full: move `amount` base units from `source` to `dest`, signed by
/// `authority`. The host performs it atomically; on failure the enclosing
/// operation must leave every record as it was.
#[derive(Clone, Copy, PartialEq, Eq, Structural, Debug)]
pub struct TransferAction {
    pub source: Holding,
    pub dest: Holding,
    pub amount: u64,
    pub authority: TransferAuthority,
}

/// The transfer primitive as the operations rely on it: atomically moves
/// `amount` between two balances, succeeding exactly when the source holds
/// enough and the destination does not overflow; on failure both balances
/// stay as they were.
pub fn transfer_tokens(source: &mut u64, dest: &mut u64, amount: u64) -> (ok: bool)
    ensures
        ok <==> *old(source) >= amount && *old(dest) + amount <= u64::MAX,
        ok ==> *final(source) == *old(source) - amount && *final(dest) == *old(dest) + amount,
        !ok ==> *final(source) == *old(source) && *final(dest) == *old(dest),
{
    if amount <= *source && amount <= u64::MAX - *dest {
        *source = *source - amount;
        *dest = *dest + amount;
        true
    } else {
        false
    }
}

} // verus!
