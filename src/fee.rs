use vstd::prelude::*;
use crate::pallet::Pallet;
use crate::primitives::{NATIVE_FEE_MULTIPLIER, WEIGHT_PER_SECOND};

verus! {

/// `x * y`, clamped to `u128::MAX`.
pub open spec fn saturating_product(x: int, y: int) -> int {
    if x * y > u128::MAX {
        u128::MAX as int
    } else {
        x * y
    }
}

/// Fee for `weight` at `rate` per second of execution.
pub open spec fn fee_per_second_spec(weight: u64, rate: u128) -> int {
    saturating_product(rate as int, weight as int) / (WEIGHT_PER_SECOND as int)
}

/// Fee for `weight` in the local native token.
pub open spec fn native_fee_spec(weight: u64) -> int {
    saturating_product(NATIVE_FEE_MULTIPLIER as int, weight as int)
}

impl Pallet {
    /// Fee for executing `weight` on the storage chain, priced at
    /// `fee_per_second` per second of execution and rounded down.
    pub fn calculate_fee_per_second(weight: u64, fee_per_second: u128) -> (r: u128)
        ensures
            r == fee_per_second_spec(weight, fee_per_second),
    {
        let product: u128 = match fee_per_second.checked_mul(weight as u128) {
            Some(p) => p,
            None => u128::MAX,
        };
        product / (WEIGHT_PER_SECOND as u128)
    }

    /// Fee for executing `weight` on the storage chain when paid in the
    /// local native token: a flat price per weight unit.
    pub fn calculate_fee_in_crust_native_token(weight: u64) -> (r: u128)
        ensures
            r == native_fee_spec(weight),
            r == NATIVE_FEE_MULTIPLIER * weight,
    {
        proof {
            assert(NATIVE_FEE_MULTIPLIER * weight <= 10 * u64::MAX) by (nonlinear_arith)
                requires weight <= u64::MAX;
        }
        NATIVE_FEE_MULTIPLIER * (weight as u128)
    }
}

} // verus!
