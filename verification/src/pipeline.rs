//! The swap guard pipeline: expiry guard, oracle price resolution, slippage
//! bound enforcement, and — only when all three pass — construction of the
//! authorized transfer instruction. Control flows strictly forward; any
//! failure aborts the run and authorizes nothing.

use vstd::prelude::*;

use crate::error::SwapError;
use crate::request::{OraclePrice, SwapRequest, SwapWithProtection, TransferInstruction};
use crate::slippage::{slippage_guard, slippage_outcome};

verus! {

/// What the expiry guard yields: success exactly when the current time has
/// not passed `valid_until`.
pub open spec fn expiry_outcome(now: i64, valid_until: i64) -> Result<(), SwapError> {
    if now <= valid_until {
        Ok(())
    } else {
        Err(SwapError::TransactionExpired)
    }
}

/// Rejects a stale request: succeeds if and only if `now <= valid_until`,
/// failing with `TransactionExpired` otherwise. The time source is the host's
/// trusted clock; this guard treats its reading as authoritative.
pub fn check_expiry(now: i64, valid_until: i64) -> (r: Result<(), SwapError>)
    ensures
        r == expiry_outcome(now, valid_until),
{
    if now <= valid_until {
        Ok(())
    } else {
        Err(SwapError::TransactionExpired)
    }
}

/// What the price resolver yields: the price the feed reported, or
/// `InvalidPrice` when the feed reported none. Any doubt about freshness must
/// already have surfaced as an empty reading — the resolver fails closed and
/// never substitutes a default.
pub open spec fn price_outcome(reading: Option<OraclePrice>) -> Result<OraclePrice, SwapError> {
    match reading {
        Some(p) => Ok(p),
        None => Err(SwapError::InvalidPrice),
    }
}

/// Resolves the oracle's reading for this run: the current price, or
/// `InvalidPrice` when the feed yielded none.
pub fn resolve_price(reading: Option<OraclePrice>) -> (r: Result<OraclePrice, SwapError>)
    ensures
        r == price_outcome(reading),
{
    match reading {
        Some(p) => Ok(p),
        None => Err(SwapError::InvalidPrice),
    }
}

/// What one whole pipeline run yields for a request, a clock reading and an
/// oracle reading: the authorized transfer instruction, or the first stage's
/// failure. The stages run strictly in order — expiry, price, slippage — and
/// the instruction moves exactly `amount_in` along the accounts' route.
pub open spec fn pipeline_outcome(
    request: SwapRequest,
    now: i64,
    reading: Option<OraclePrice>,
    accounts: SwapWithProtection,
) -> Result<TransferInstruction, SwapError> {
    if now > request.valid_until {
        Err(SwapError::TransactionExpired)
    } else {
        match reading {
            None => Err(SwapError::InvalidPrice),
            Some(price) => match slippage_outcome(
                request.amount_in,
                price.magnitude,
                request.max_slippage_bps,
                request.min_amount_out,
            ) {
                Ok(_) => Ok(
                    TransferInstruction { route: accounts.route(), amount: request.amount_in },
                ),
                Err(e) => Err(e),
            },
        }
    }
}

/// Runs the guard pipeline on one request and, when every guard passes,
/// authorizes the transfer of exactly `amount_in` from the user's holding to
/// the pool's. `now` is the host clock's reading and `reading` the price
/// feed's answer for this run; both are read fresh per invocation and never
/// cached. The decision is binary: the whole amount, or nothing.
pub fn swap_with_protection(
    request: &SwapRequest,
    now: i64,
    reading: Option<OraclePrice>,
    accounts: &SwapWithProtection,
) -> (r: Result<TransferInstruction, SwapError>)
    ensures
        r == pipeline_outcome(*request, now, reading, *accounts),
{
    match check_expiry(now, request.valid_until) {
        Ok(()) => (),
        Err(e) => {
            return Err(e);
        },
    }
    let price = match resolve_price(reading) {
        Ok(p) => p,
        Err(e) => {
            return Err(e);
        },
    };
    match slippage_guard(
        request.amount_in,
        price,
        request.max_slippage_bps,
        request.min_amount_out,
    ) {
        Ok(_) => (),
        Err(e) => {
            return Err(e);
        },
    }
    let route = accounts.transfer_ctx();
    Ok(TransferInstruction { route, amount: request.amount_in })
}

} // verus!
