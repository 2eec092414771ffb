//! The slippage bound calculator: from the input amount, the oracle price and
//! the caller's tolerance it derives the expected output, the allowed
//! slippage, and the minimum acceptable output, in overflow-checked 128-bit
//! arithmetic.

use vstd::prelude::*;

use crate::error::SwapError;
use crate::request::OraclePrice;

verus! {

/// Basis points in a whole: 10,000 bps = 100%.
pub const BPS_DENOMINATOR: u128 = 10_000;

/// The output the oracle price predicts for `amount_in`, as an unbounded
/// integer: `amount_in * price`.
pub open spec fn expected_output_of(amount_in: u64, price: u128) -> int {
    amount_in * price
}

/// The slippage allowance granted by a tolerance of `bps` basis points, as an
/// unbounded integer: `amount_in * price * bps / 10_000`, the division
/// truncating toward zero.
pub open spec fn max_slippage_of(amount_in: u64, price: u128, bps: u16) -> int {
    amount_in * price * bps / (BPS_DENOMINATOR as int)
}

/// The least output the pipeline will accept: the expected output less the
/// slippage allowance. Negative exactly when the allowance exceeds the
/// expected output, which only a tolerance above 10,000 bps can cause.
pub open spec fn minimum_acceptable_of(amount_in: u64, price: u128, bps: u16) -> int {
    expected_output_of(amount_in, price) - max_slippage_of(amount_in, price, bps)
}

/// Whether the product `amount_in * price` exceeds the 128-bit range.
pub open spec fn output_overflows(amount_in: u64, price: u128) -> bool {
    expected_output_of(amount_in, price) > u128::MAX
}

/// Whether the product `expected_output * bps` exceeds the 128-bit range,
/// given that the expected output itself fits.
pub open spec fn slippage_mul_overflows(amount_in: u64, price: u128, bps: u16) -> bool {
    expected_output_of(amount_in, price) * bps > u128::MAX
}

/// The three bounds one pipeline run derives. Ephemeral: computed from the
/// request and the oracle price, compared against the caller's floor, then
/// discarded.
#[derive(Clone, Copy, Debug, PartialEq, Eq, Structural)]
pub struct SlippageBounds {
    /// `amount_in * price`.
    pub expected_output: u128,
    /// `expected_output * bps / 10_000`.
    pub max_slippage_amount: u128,
    /// `expected_output - max_slippage_amount`.
    pub minimum_acceptable_output: u128,
}

/// What the bound computation yields: the three bounds, or
/// `ArithmeticOverflow` as soon as one exact intermediate result cannot be
/// represented in 128 bits (a negative minimum counts as unrepresentable).
pub open spec fn bounds_outcome(amount_in: u64, price: u128, bps: u16) -> Result<
    SlippageBounds,
    SwapError,
> {
    if output_overflows(amount_in, price) {
        Err(SwapError::ArithmeticOverflow)
    } else if slippage_mul_overflows(amount_in, price, bps) {
        Err(SwapError::ArithmeticOverflow)
    } else if minimum_acceptable_of(amount_in, price, bps) < 0 {
        Err(SwapError::ArithmeticOverflow)
    } else {
        Ok(
            SlippageBounds {
                expected_output: expected_output_of(amount_in, price) as u128,
                max_slippage_amount: max_slippage_of(amount_in, price, bps) as u128,
                minimum_acceptable_output: minimum_acceptable_of(amount_in, price, bps) as u128,
            },
        )
    }
}

/// Computes the slippage bounds for one request, failing with
/// `ArithmeticOverflow` exactly when an intermediate exact result leaves the
/// 128-bit range.
pub fn compute_slippage_bounds(amount_in: u64, oracle_price: OraclePrice, max_slippage_bps: u16)
    -> (r: Result<SlippageBounds, SwapError>)
    ensures
        r == bounds_outcome(amount_in, oracle_price.magnitude, max_slippage_bps),
{
    let expected_output: u128 = match (amount_in as u128).checked_mul(oracle_price.magnitude) {
        Some(e) => e,
        None => {
            return Err(SwapError::ArithmeticOverflow);
        },
    };
    let scaled: u128 = match expected_output.checked_mul(max_slippage_bps as u128) {
        Some(s) => s,
        None => {
            return Err(SwapError::ArithmeticOverflow);
        },
    };
    let max_slippage_amount: u128 = scaled / BPS_DENOMINATOR;
    let minimum_acceptable_output: u128 = match expected_output.checked_sub(max_slippage_amount) {
        Some(m) => m,
        None => {
            return Err(SwapError::ArithmeticOverflow);
        },
    };
    Ok(
        SlippageBounds {
            expected_output,
            max_slippage_amount,
            minimum_acceptable_output,
        },
    )
}

/// What the whole calculator stage yields: the bounds when they are
/// representable and the minimum acceptable output meets the caller's floor;
/// `SlippageExceeded` when it falls short; the arithmetic failure otherwise.
pub open spec fn slippage_outcome(
    amount_in: u64,
    price: u128,
    bps: u16,
    min_amount_out: u64,
) -> Result<SlippageBounds, SwapError> {
    match bounds_outcome(amount_in, price, bps) {
        Ok(b) => if b.minimum_acceptable_output >= min_amount_out {
            Ok(b)
        } else {
            Err(SwapError::SlippageExceeded)
        },
        Err(e) => Err(e),
    }
}

/// Runs the calculator stage: computes the bounds and enforces the caller's
/// floor, succeeding if and only if `minimum_acceptable_of` is representable
/// and at least `min_amount_out`.
pub fn slippage_guard(
    amount_in: u64,
    oracle_price: OraclePrice,
    max_slippage_bps: u16,
    min_amount_out: u64,
) -> (r: Result<SlippageBounds, SwapError>)
    ensures
        r == slippage_outcome(amount_in, oracle_price.magnitude, max_slippage_bps, min_amount_out),
{
    let bounds = match compute_slippage_bounds(amount_in, oracle_price, max_slippage_bps) {
        Ok(b) => b,
        Err(e) => {
            return Err(e);
        },
    };
    if bounds.minimum_acceptable_output >= min_amount_out as u128 {
        Ok(bounds)
    } else {
        Err(SwapError::SlippageExceeded)
    }
}

} // verus!
