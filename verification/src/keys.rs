use vstd::prelude::*;

verus! {

/// A 256-bit account identity (a public key or a derived address),
/// held as two 128-bit halves so that equality is plain field equality.
#[derive(Clone, Copy, PartialEq, Eq, Structural, Hash, Debug)]
pub struct Pubkey {
    pub hi: u128,
    pub lo: u128,
}

} // verus!
