use sandwich_resistant_swap::error::SwapError;
use sandwich_resistant_swap::pipeline::{check_expiry, resolve_price, swap_with_protection};
use sandwich_resistant_swap::request::{
    OraclePrice, SwapRequest, SwapWithProtection, TransferInstruction, TransferRoute,
};

fn accounts() -> SwapWithProtection {
    SwapWithProtection {
        user_token_account: [1u8; 32],
        pool_token_account: [2u8; 32],
        user: [3u8; 32],
    }
}

fn request(amount_in: u64, min_amount_out: u64, max_slippage_bps: u16) -> SwapRequest {
    SwapRequest { amount_in, min_amount_out, max_slippage_bps, valid_until: 1_000 }
}

fn price(magnitude: u128) -> Option<OraclePrice> {
    Some(OraclePrice { magnitude })
}

#[test]
fn expired_request_fails_with_transaction_expired() {
    let req = request(1000, 0, 100);
    let r = swap_with_protection(&req, 1_001, price(10), &accounts());
    assert_eq!(r, Err(SwapError::TransactionExpired));
}

#[test]
fn expiry_boundary_now_equal_valid_until_passes() {
    assert_eq!(check_expiry(1_000, 1_000), Ok(()));
    assert_eq!(check_expiry(1_001, 1_000), Err(SwapError::TransactionExpired));
    assert_eq!(check_expiry(-5, -5), Ok(()));
    let req = request(1000, 9900, 100);
    let r = swap_with_protection(&req, 1_000, price(10), &accounts());
    assert!(r.is_ok());
}

#[test]
fn missing_price_fails_with_invalid_price() {
    let req = request(1000, 0, 100);
    assert_eq!(
        swap_with_protection(&req, 0, None, &accounts()),
        Err(SwapError::InvalidPrice)
    );
    assert_eq!(resolve_price(None), Err(SwapError::InvalidPrice));
    assert_eq!(
        resolve_price(price(7)),
        Ok(OraclePrice { magnitude: 7 })
    );
}

#[test]
fn expiry_is_checked_before_the_price() {
    // An expired request fails with TransactionExpired even when the feed
    // also has no current price: the feed is never what rejects it.
    let req = request(1000, 0, 100);
    assert_eq!(
        swap_with_protection(&req, 2_000, None, &accounts()),
        Err(SwapError::TransactionExpired)
    );
}

#[test]
fn one_percent_slippage_scenario() {
    // amount_in = 1000, price = 10, tolerance = 100 bps (1%):
    // expected 10000, allowance 100, minimum acceptable 9900.
    let accts = accounts();
    let ok = swap_with_protection(&request(1000, 9900, 100), 0, price(10), &accts);
    assert_eq!(
        ok,
        Ok(TransferInstruction {
            route: TransferRoute { from: [1u8; 32], to: [2u8; 32], authority: [3u8; 32] },
            amount: 1000,
        })
    );
    let too_strict = swap_with_protection(&request(1000, 9901, 100), 0, price(10), &accts);
    assert_eq!(too_strict, Err(SwapError::SlippageExceeded));
}

#[test]
fn authorized_instruction_moves_the_whole_amount() {
    let accts = accounts();
    let r = swap_with_protection(&request(42, 0, 0), 0, price(1), &accts).unwrap();
    assert_eq!(r.amount, 42);
    assert_eq!(r.route.from, accts.user_token_account);
    assert_eq!(r.route.to, accts.pool_token_account);
    assert_eq!(r.route.authority, accts.user);
}

#[test]
fn transfer_ctx_routes_from_user_to_pool() {
    let accts = accounts();
    let route = accts.transfer_ctx();
    assert_eq!(
        route,
        TransferRoute { from: [1u8; 32], to: [2u8; 32], authority: [3u8; 32] }
    );
}

#[test]
fn identical_runs_have_identical_outcomes() {
    let req = request(123_456, 600_000, 250);
    let accts = accounts();
    let first = swap_with_protection(&req, 77, price(5), &accts);
    let second = swap_with_protection(&req, 77, price(5), &accts);
    assert_eq!(first, second);
    let failing = request(123_456, 700_000, 250);
    let third = swap_with_protection(&failing, 77, price(5), &accts);
    let fourth = swap_with_protection(&failing, 77, price(5), &accts);
    assert_eq!(third, fourth);
    assert_eq!(third, Err(SwapError::SlippageExceeded));
}

#[test]
fn no_floor_passes_across_the_whole_tolerance_range() {
    let accts = accounts();
    for bps in [0u16, 1, 100, 5_000, 10_000] {
        let r = swap_with_protection(&request(1000, 0, bps), 0, price(10), &accts);
        assert!(r.is_ok(), "tolerance of {} bps should pass with no floor", bps);
    }
}

#[test]
fn zero_amount_request_is_degenerate_but_well_defined() {
    let accts = accounts();
    let r = swap_with_protection(&request(0, 0, 100), 0, price(10), &accts).unwrap();
    assert_eq!(r.amount, 0);
    // A zero amount cannot meet a positive floor.
    assert_eq!(
        swap_with_protection(&request(0, 1, 100), 0, price(10), &accts),
        Err(SwapError::SlippageExceeded)
    );
}
