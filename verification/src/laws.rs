//! Laws of the swap guard pipeline, stated and proved over the same spec
//! functions that the executable stages' contracts use.

use vstd::prelude::*;

use vstd::arithmetic::div_mod::{lemma_div_is_ordered, lemma_div_multiples_vanish};

use crate::error::SwapError;
use crate::pipeline::pipeline_outcome;
use crate::request::{OraclePrice, SwapRequest, SwapWithProtection, TransferInstruction};
use crate::slippage::{
    bounds_outcome, expected_output_of, max_slippage_of, minimum_acceptable_of, slippage_outcome,
    slippage_mul_overflows, SlippageBounds, BPS_DENOMINATOR,
};

verus! {

/// An expired request fails with `TransactionExpired`, and its outcome does
/// not depend on the oracle reading: the price feed need never be consulted.
pub proof fn lemma_expired_request_rejected(
    request: SwapRequest,
    now: i64,
    reading: Option<OraclePrice>,
    other_reading: Option<OraclePrice>,
    accounts: SwapWithProtection,
)
    requires
        now > request.valid_until,
    ensures
        pipeline_outcome(request, now, reading, accounts) == Err::<
            TransferInstruction,
            SwapError,
        >(SwapError::TransactionExpired),
        pipeline_outcome(request, now, reading, accounts) == pipeline_outcome(
            request,
            now,
            other_reading,
            accounts,
        ),
{
}

/// When the feed yields no current price, an unexpired request fails with
/// `InvalidPrice`, and no transfer instruction is produced.
pub proof fn lemma_missing_price_rejected(
    request: SwapRequest,
    now: i64,
    accounts: SwapWithProtection,
)
    requires
        now <= request.valid_until,
    ensures
        pipeline_outcome(request, now, None, accounts) == Err::<
            TransferInstruction,
            SwapError,
        >(SwapError::InvalidPrice),
{
}

/// When the exact product `amount_in * price` exceeds the 128-bit range, an
/// unexpired request with a current price fails with `ArithmeticOverflow`.
pub proof fn lemma_overflowing_product_rejected(
    request: SwapRequest,
    now: i64,
    price: OraclePrice,
    accounts: SwapWithProtection,
)
    requires
        now <= request.valid_until,
        request.amount_in * price.magnitude > u128::MAX,
    ensures
        pipeline_outcome(request, now, Some(price), accounts) == Err::<
            TransferInstruction,
            SwapError,
        >(SwapError::ArithmeticOverflow),
{
}

/// The bounds one successful computation yields are internally consistent:
/// the minimum acceptable output is exactly the expected output less the
/// slippage allowance, which never exceeds the expected output.
pub proof fn lemma_bounds_consistent(amount_in: u64, price: u128, bps: u16, bounds: SlippageBounds)
    requires
        bounds_outcome(amount_in, price, bps) == Ok::<SlippageBounds, SwapError>(bounds),
    ensures
        bounds.minimum_acceptable_output == bounds.expected_output - bounds.max_slippage_amount,
        bounds.max_slippage_amount <= bounds.expected_output,
        bounds.expected_output == expected_output_of(amount_in, price),
{
}

/// A transfer is authorized only when every guard has passed: the request was
/// not expired, a current price was available, the bounds were representable,
/// the computed minimum met the caller's floor — and then the instruction
/// moves exactly `amount_in` along the accounts' route.
pub proof fn lemma_authorization_guarded(
    request: SwapRequest,
    now: i64,
    reading: Option<OraclePrice>,
    accounts: SwapWithProtection,
    instruction: TransferInstruction,
)
    requires
        pipeline_outcome(request, now, reading, accounts) == Ok::<
            TransferInstruction,
            SwapError,
        >(instruction),
    ensures
        now <= request.valid_until,
        reading is Some,
        minimum_acceptable_of(
            request.amount_in,
            reading->0.magnitude,
            request.max_slippage_bps,
        ) >= request.min_amount_out,
        instruction.amount == request.amount_in,
        instruction.route == accounts.route(),
{
}

/// With a tolerance of zero basis points the slippage allowance is zero and
/// the minimum acceptable output equals the expected output, so the guard
/// passes exactly for a floor no greater than the expected output.
pub proof fn lemma_zero_tolerance(amount_in: u64, price: u128, min_amount_out: u64)
    requires
        expected_output_of(amount_in, price) <= u128::MAX,
    ensures
        max_slippage_of(amount_in, price, 0) == 0,
        minimum_acceptable_of(amount_in, price, 0) == expected_output_of(amount_in, price),
        min_amount_out <= expected_output_of(amount_in, price) ==> slippage_outcome(
            amount_in,
            price,
            0,
            min_amount_out,
        ) is Ok,
        min_amount_out > expected_output_of(amount_in, price) ==> slippage_outcome(
            amount_in,
            price,
            0,
            min_amount_out,
        ) == Err::<SlippageBounds, SwapError>(SwapError::SlippageExceeded),
{
}

/// Stages one through three are pure: two pipeline runs over identical
/// requests, the same clock reading and an unchanged oracle reading have
/// identical outcomes.
pub proof fn lemma_pipeline_idempotent(
    request: SwapRequest,
    now: i64,
    reading: Option<OraclePrice>,
    accounts: SwapWithProtection,
    first: Result<TransferInstruction, SwapError>,
    second: Result<TransferInstruction, SwapError>,
)
    requires
        first == pipeline_outcome(request, now, reading, accounts),
        second == pipeline_outcome(request, now, reading, accounts),
    ensures
        first == second,
{
}

/// Raising the slippage tolerance weakens the guard's bound: the allowance
/// grows and the minimum acceptable output shrinks, both monotonically.
pub proof fn lemma_bound_weakens_with_tolerance(amount_in: u64, price: u128, bps1: u16, bps2: u16)
    requires
        bps1 <= bps2,
    ensures
        max_slippage_of(amount_in, price, bps1) <= max_slippage_of(amount_in, price, bps2),
        minimum_acceptable_of(amount_in, price, bps2) <= minimum_acceptable_of(
            amount_in,
            price,
            bps1,
        ),
{
    let e: int = amount_in * price;
    assert(e * bps1 <= e * bps2) by (nonlinear_arith)
        requires
            0 <= e,
            bps1 <= bps2,
    ;
    lemma_div_is_ordered(e * bps1, e * bps2, BPS_DENOMINATOR as int);
}

/// For a caller with no output floor, raising the tolerance never turns a
/// passing request into a failing one, as long as the tolerance stays within
/// one whole (10,000 bps) and the scaled product stays representable. A
/// positive floor does not enjoy this: a larger tolerance lowers the minimum
/// acceptable output, which may then fall below the floor.
pub proof fn lemma_tolerance_monotonic_without_floor(
    amount_in: u64,
    price: u128,
    bps1: u16,
    bps2: u16,
)
    requires
        bps1 <= bps2,
        bps2 <= BPS_DENOMINATOR,
        !slippage_mul_overflows(amount_in, price, bps2),
        slippage_outcome(amount_in, price, bps1, 0) is Ok,
    ensures
        slippage_outcome(amount_in, price, bps2, 0) is Ok,
{
    let e: int = amount_in * price;
    let d: int = BPS_DENOMINATOR as int;
    assert(e * bps2 <= e * d) by (nonlinear_arith)
        requires
            0 <= e,
            bps2 <= d,
    ;
    lemma_div_is_ordered(e * bps2, e * d, d);
    lemma_div_multiples_vanish(e, d);
    assert(e * d == d * e);
}

} // verus!
