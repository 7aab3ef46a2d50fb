use vstd::prelude::*;

verus! {

/// 10^e over the mathematical integers.
pub open spec fn pow10(e: nat) -> nat
    decreases e,
{
    if e == 0 {
        1
    } else {
        10 * pow10((e - 1) as nat)
    }
}

/// 10^e clamped to the largest 128-bit value, as a saturating power
/// computes it.
pub open spec fn pow10_saturated(e: nat) -> nat {
    if pow10(e) > u128::MAX {
        u128::MAX as nat
    } else {
        pow10(e)
    }
}

/// a + b clamped to the largest 64-bit value: the crediting arithmetic.
pub open spec fn sat_add_u64(a: int, b: int) -> int {
    if a + b > u64::MAX {
        u64::MAX as int
    } else {
        a + b
    }
}

/// The token payout for a points debit: floor(points * 10^decimals / rate),
/// computed through a 128-bit intermediate. A product beyond 128 bits, a
/// quotient beyond 64 bits, or an unset rate all yield zero.
pub open spec fn token_amount_spec(points_amount: u64, decimals: u8, points_per_token: u64) -> u64 {
    let product = (points_amount as int) * (pow10_saturated(decimals as nat) as int);
    if product > u128::MAX || points_per_token == 0 {
        0u64
    } else {
        let quotient = product / (points_per_token as int);
        if quotient > u64::MAX {
            0u64
        } else {
            quotient as u64
        }
    }
}

/// 10^e grows with e.
pub proof fn lemma_pow10_increases(a: nat, b: nat)
    requires
        a <= b,
    ensures
        pow10(a) <= pow10(b),
    decreases b,
{
    if a < b {
        lemma_pow10_increases(a, (b - 1) as nat);
        assert(pow10(b) == 10 * pow10((b - 1) as nat));
    }
}

/// The largest power of ten that a 128-bit value can hold is 10^38.
pub proof fn lemma_pow10_u128_bounds()
    ensures
        pow10(38) <= u128::MAX,
        pow10(39) > u128::MAX,
{
    reveal_with_fuel(pow10, 40);
    assert(pow10(38) == 100_000_000_000_000_000_000_000_000_000_000_000_000);
    assert(pow10(39) == 10 * pow10(38));
}

/// Computes 10^e saturating at the largest 128-bit value, the widening step
/// of the redemption arithmetic.
pub fn pow10_saturating(e: u8) -> (r: u128)
    ensures
        r as nat == pow10_saturated(e as nat),
{
    proof {
        lemma_pow10_u128_bounds();
    }
    if e > 38 {
        proof {
            lemma_pow10_increases(39, e as nat);
        }
        return u128::MAX;
    }
    let mut acc: u128 = 1;
    let mut i: u8 = 0;
    while i < e
        invariant
            i <= e <= 38,
            acc == pow10(i as nat),
        decreases e - i,
    {
        proof {
            lemma_pow10_u128_bounds();
            lemma_pow10_increases(i as nat + 1, 38);
            assert(pow10(i as nat + 1) == 10 * pow10(i as nat));
        }
        acc = acc * 10;
        i = i + 1;
    }
    proof {
        lemma_pow10_increases(e as nat, 38);
    }
    acc
}

/// Token payout for a points debit at the given rate and asset decimals:
/// exactly the widened floor division the redemption engine relies on.
pub fn token_amount(points_amount: u64, decimals: u8, points_per_token: u64) -> (r: u64)
    ensures
        r == token_amount_spec(points_amount, decimals, points_per_token),
{
    let scale = pow10_saturating(decimals);
    match (points_amount as u128).checked_mul(scale) {
        None => 0,
        Some(product) => match product.checked_div(points_per_token as u128) {
            None => 0,
            Some(quotient) => {
                if quotient > u64::MAX as u128 {
                    0
                } else {
                    quotient as u64
                }
            },
        },
    }
}

} // verus!
