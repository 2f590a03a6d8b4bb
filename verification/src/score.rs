//! The fee-premium term of the anomaly score.
//!
//! The score combines the pending-transaction count and the fee premium —
//! how far the current gas price stands above the latest base fee. The
//! subtraction is clamped at zero: when the base fee is at or above the gas
//! price there is no premium. The clamp is computed here on unsigned 128-bit
//! values; the surrounding binary applies the fixed floating-point weights.

use vstd::prelude::*;

verus! {

/// The gas price's excess over the base fee, clamped at zero.
pub open spec fn spec_fee_premium(gas_price: u128, base_fee: u128) -> u128 {
    if gas_price > base_fee {
        (gas_price - base_fee) as u128
    } else {
        0
    }
}

/// Computes how far `gas_price` stands above `base_fee`, and zero when it
/// does not.
pub fn fee_premium(gas_price: u128, base_fee: u128) -> (r: u128)
    ensures
        r == spec_fee_premium(gas_price, base_fee),
{
    if gas_price > base_fee {
        gas_price - base_fee
    } else {
        0
    }
}

/// Whenever the gas price is at or below the base fee, the fee premium is
/// exactly zero, whatever the magnitudes involved.
pub proof fn lemma_no_premium_at_or_below_base(gas_price: u128, base_fee: u128)
    requires
        gas_price <= base_fee,
    ensures
        spec_fee_premium(gas_price, base_fee) == 0,
{
}

} // verus!
