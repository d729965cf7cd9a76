//! Fee and stake arithmetic.
use vstd::prelude::*;

use crate::errors::MadscapeError;
use crate::state::Match;

verus! {

/// The fee on `amount` at `basis_points` hundredths of a percent, rounded down.
pub open spec fn fee_by_basis_points(amount: u64, basis_points: u16) -> int {
    (amount * basis_points) / 10000
}

/// The fee on `amount` at `fee_lamports_basis_points` hundredths of a percent,
/// rounded down; refused when `amount * fee_lamports_basis_points` overflows a `u64`.
pub fn calc_fee_basis_points(amount: u64, fee_lamports_basis_points: u16) -> (fee: Result<u64, MadscapeError>)
    ensures
        amount * fee_lamports_basis_points <= u64::MAX ==> fee == Ok::<u64, MadscapeError>(
            fee_by_basis_points(amount, fee_lamports_basis_points) as u64,
        ),
        amount * fee_lamports_basis_points > u64::MAX ==> fee == Err::<u64, MadscapeError>(
            MadscapeError::FeeCalculationFailure,
        ),
        // The fee is the amount at the rate, rounded down.
        fee matches Ok(f) ==> f * 10000 <= amount * fee_lamports_basis_points < f * 10000 + 10000,
        // A rate of at most 100% never takes more than the amount.
        fee_lamports_basis_points <= 10000 ==> (fee matches Ok(f) ==> f <= amount),
{
    let rate = fee_lamports_basis_points as u64;
    match amount.checked_mul(rate) {
        Some(product) => {
            match product.checked_div(10000) {
                Some(result) => {
                    proof {
                        if fee_lamports_basis_points <= 10000 {
                            assert(product <= amount * 10000) by (nonlinear_arith)
                                requires
                                    product == amount * rate,
                                    rate <= 10000,
                            ;
                        }
                    }
                    Ok(result)
                },
                None => Err(MadscapeError::FeeCalculationFailure),
            }
        },
        None => Err(MadscapeError::FeeCalculationFailure),
    }
}

/// The lamports a settled match pays out: both stakes, `2 * target_amount`; refused
/// when that overflows a `u64`.
pub fn get_match_total_lamports_checked(game: &Match) -> (total: Result<u64, MadscapeError>)
    ensures
        2 * game.target_amount <= u64::MAX ==> total == Ok::<u64, MadscapeError>(
            (2 * game.target_amount) as u64,
        ),
        2 * game.target_amount > u64::MAX ==> total == Err::<u64, MadscapeError>(
            MadscapeError::NumericOverflow,
        ),
{
    match game.target_amount.checked_mul(2) {
        Some(total) => Ok(total),
        None => Err(MadscapeError::NumericOverflow),
    }
}

} // verus!
