//! How much collateral stands behind an amount of stablecoin.

use vstd::prelude::*;
use crate::error::StablecoinError;

verus! {

/// The number of basis points in one whole: a ratio of 10000 is 100%.
pub const BPS_DENOMINATOR: u64 = 10000;

/// The collateral that `amount` units of stablecoin call for at a ratio of
/// `ratio_bps` basis points: the product divided by 10000, rounded down.
pub open spec fn sizing(amount: nat, ratio_bps: nat) -> nat {
    amount * ratio_bps / 10000
}

/// The sizing as an amount that can be moved: the sizing itself where it
/// fits in 64 bits, and `MathOverflow` where it does not.
pub open spec fn checked_sizing(amount: u64, ratio_bps: u64) -> Result<u64, StablecoinError> {
    if sizing(amount as nat, ratio_bps as nat) <= u64::MAX {
        Ok(sizing(amount as nat, ratio_bps as nat) as u64)
    } else {
        Err(StablecoinError::MathOverflow)
    }
}

/// The product of two 64-bit numbers fits in 128 bits, and so does its
/// sizing.
pub proof fn lemma_sizing_fits_wide(amount: u64, ratio_bps: u64)
    ensures
        0 <= amount * ratio_bps <= u128::MAX,
        sizing(amount as nat, ratio_bps as nat) <= amount * ratio_bps,
{
    assert(0 <= amount * ratio_bps <= 0xffff_ffff_ffff_ffff * 0xffff_ffff_ffff_ffff)
        by (nonlinear_arith)
        requires
            0 <= amount <= 0xffff_ffff_ffff_ffff,
            0 <= ratio_bps <= 0xffff_ffff_ffff_ffff,
    ;
}

/// Sizing rounds down, and by less than one unit: it loses nothing exactly
/// when the product of amount and ratio is a multiple of 10000.
pub proof fn lemma_sizing_rounds_down(amount: nat, ratio_bps: nat)
    ensures
        sizing(amount, ratio_bps) * 10000 <= amount * ratio_bps,
        amount * ratio_bps < sizing(amount, ratio_bps) * 10000 + 10000,
        sizing(amount, ratio_bps) * 10000 == amount * ratio_bps <==> (amount * ratio_bps) % 10000
            == 0,
{
    let product: nat = amount * ratio_bps;
    assert(product == 10000 * (product / 10000) + product % 10000) by {
        vstd::arithmetic::div_mod::lemma_fundamental_div_mod(product as int, 10000);
    }
}

/// Sizes collateral in 128 bits, where the product of two 64-bit numbers
/// always fits: the result is the exact sizing, for every amount and ratio.
pub fn required_collateral_wide(amount: u64, ratio_bps: u64) -> (r: Result<
    u128,
    StablecoinError,
>)
    ensures
        r == Ok::<u128, StablecoinError>(sizing(amount as nat, ratio_bps as nat) as u128),
        sizing(amount as nat, ratio_bps as nat) <= u128::MAX,
{
    proof {
        lemma_sizing_fits_wide(amount, ratio_bps);
    }
    let product: u128 = match (amount as u128).checked_mul(ratio_bps as u128) {
        Some(p) => p,
        None => {
            return Err(StablecoinError::MathOverflow);
        },
    };
    match product.checked_div(BPS_DENOMINATOR as u128) {
        Some(q) => Ok(q),
        None => Err(StablecoinError::MathOverflow),
    }
}

/// Sizes collateral for `amount` at `ratio_bps` in the 64-bit unit in which
/// amounts are moved. The sizing is computed in 128 bits; where it does not
/// fit in 64 bits it is refused with `MathOverflow`, never cut short.
pub fn required_collateral(amount: u64, ratio_bps: u64) -> (r: Result<u64, StablecoinError>)
    ensures
        r == checked_sizing(amount, ratio_bps),
        sizing(amount as nat, ratio_bps as nat) <= u64::MAX ==> r == Ok::<u64, StablecoinError>(
            sizing(amount as nat, ratio_bps as nat) as u64,
        ),
        sizing(amount as nat, ratio_bps as nat) > u64::MAX ==> r == Err::<u64, StablecoinError>(
            StablecoinError::MathOverflow,
        ),
{
    let wide: u128 = match required_collateral_wide(amount, ratio_bps) {
        Ok(w) => w,
        Err(e) => {
            return Err(e);
        },
    };
    if wide > u64::MAX as u128 {
        return Err(StablecoinError::MathOverflow);
    }
    Ok(wide as u64)
}

} // verus!
