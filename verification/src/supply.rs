//! Scaling a human-scale quantity to base units.

use vstd::prelude::*;

verus! {

/// Ten to the power `decimals`.
pub open spec fn pow10(decimals: nat) -> nat
    decreases decimals,
{
    if decimals == 0 {
        1
    } else {
        10 * pow10((decimals - 1) as nat)
    }
}

/// The number of base units that `initial_supply` whole tokens amount to
/// when one token is divided into `10^decimals` units.
pub open spec fn scaled(initial_supply: u64, decimals: u8) -> nat {
    initial_supply as nat * pow10(decimals as nat)
}

/// A power of ten is at least one.
pub proof fn lemma_pow10_positive(decimals: nat)
    ensures
        pow10(decimals) >= 1,
    decreases decimals,
{
    if decimals > 0 {
        lemma_pow10_positive((decimals - 1) as nat);
    }
}

/// Powers of ten grow with the exponent.
pub proof fn lemma_pow10_monotonic(low: nat, high: nat)
    requires
        low <= high,
    ensures
        pow10(low) <= pow10(high),
    decreases high,
{
    if low < high {
        lemma_pow10_monotonic(low, (high - 1) as nat);
        lemma_pow10_positive((high - 1) as nat);
    }
}

/// Computes `initial_supply * 10^decimals`, or `None` where the product does
/// not fit in 64 bits.
pub fn checked_scale(initial_supply: u64, decimals: u8) -> (result: Option<u64>)
    ensures
        result is Some <==> scaled(initial_supply, decimals) <= u64::MAX,
        result matches Some(units) ==> units == scaled(initial_supply, decimals),
{
    if initial_supply == 0 {
        assert(scaled(initial_supply, decimals) == 0) by (nonlinear_arith)
            requires
                initial_supply == 0,
                scaled(initial_supply, decimals) == initial_supply as nat * pow10(decimals as nat),
        ;
        return Some(0);
    }
    let mut units: u64 = initial_supply;
    let mut done: u8 = 0;
    proof {
        assert(initial_supply as nat * pow10(0) == initial_supply) by (nonlinear_arith)
            requires
                pow10(0) == 1,
        ;
    }
    while done < decimals
        invariant
            done <= decimals,
            initial_supply >= 1,
            units == initial_supply as nat * pow10(done as nat),
        decreases decimals - done,
    {
        match units.checked_mul(10) {
            Some(next) => {
                proof {
                    let p = pow10(done as nat);
                    assert(pow10((done + 1) as nat) == 10 * p);
                    assert(initial_supply as nat * (10 * p) == 10 * (initial_supply as nat * p))
                        by (nonlinear_arith);
                }
                units = next;
                done = done + 1;
            },
            None => {
                proof {
                    let p = pow10(done as nat);
                    let q = pow10((done + 1) as nat);
                    assert(q == 10 * p);
                    assert(initial_supply as nat * (10 * p) == 10 * (initial_supply as nat * p))
                        by (nonlinear_arith);
                    lemma_pow10_monotonic((done + 1) as nat, decimals as nat);
                    assert(initial_supply as nat * q <= initial_supply as nat * pow10(
                        decimals as nat,
                    )) by (nonlinear_arith)
                        requires
                            q <= pow10(decimals as nat),
                    ;
                }
                return None;
            },
        }
    }
    Some(units)
}

} // verus!
