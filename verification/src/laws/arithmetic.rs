//! Facts about floored quotients.

use vstd::prelude::*;
use crate::operations::fee_amount;
use crate::rewards::earned;
use crate::state::{MAX_FEE_BPS, SCALE};

verus! {

/// Bounds of a floored quotient: `d * (n / d) <= n < d * (n / d) + d`.
pub proof fn lemma_floor_bounds(n: int, d: int)
    by (nonlinear_arith)
    requires
        0 <= n,
        0 < d,
    ensures
        0 <= n / d,
        d * (n / d) <= n < d * (n / d) + d,
{
}

/// What `staked` units earn over an advance of `delta` is the floored
/// quotient of their product by `SCALE`.
pub proof fn lemma_earned_bounds(staked: u64, delta: u128)
    ensures
        earned(staked, delta) == (staked * delta) / (SCALE as int),
        0 <= staked * delta,
        SCALE * earned(staked, delta) <= staked * delta < SCALE * earned(staked, delta) + SCALE,
{
    let product = staked as int * delta as int;
    assert(0 <= product) by (nonlinear_arith)
        requires
            0 <= staked,
            0 <= delta,
            product == staked * delta,
    ;
    assert(staked as nat * delta as nat == product) by (nonlinear_arith)
        requires
            product == staked * delta,
    ;
}

/// A fee of at most 100% never exceeds the amount it is taken from, and a
/// fee of 0% is nothing.
pub proof fn lemma_fee_within_amount(amount: u64, fee_bps: u16)
    ensures
        fee_bps <= MAX_FEE_BPS ==> fee_amount(amount, fee_bps) <= amount,
        fee_bps == 0 ==> fee_amount(amount, fee_bps) == 0,
{
    let product = amount as int * fee_bps as int;
    assert(amount as nat * fee_bps as nat == product) by (nonlinear_arith)
        requires
            product == amount * fee_bps,
    ;
    if fee_bps <= MAX_FEE_BPS {
        assert(product <= amount * 10_000) by (nonlinear_arith)
            requires
                product == amount * fee_bps,
                0 <= fee_bps <= 10_000,
                0 <= amount,
        ;
    }
    if fee_bps == 0 {
        assert(product == 0) by (nonlinear_arith)
            requires
                product == amount * fee_bps,
                fee_bps == 0,
        ;
    }
}

} // verus!
