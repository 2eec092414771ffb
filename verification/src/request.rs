//! The pipeline's input and output values: the immutable swap request, the
//! resolved oracle price, the holdings a transfer moves between, and the
//! transfer instruction the pipeline authorizes.

use vstd::prelude::*;

verus! {

/// A 32-byte identifier of a holding or of a signing principal, as the host
/// ledger addresses them.
pub type HoldingId = [u8; 32];

/// The caller's immutable swap request. It is created once, never mutated,
/// and discarded after the pipeline runs.
#[derive(Clone, Copy, Debug, PartialEq, Eq)]
pub struct SwapRequest {
    /// Amount to move out of the caller's holding, in the smallest token unit.
    pub amount_in: u64,
    /// The caller's absolute floor on the acceptable output.
    pub min_amount_out: u64,
    /// Slippage tolerance in basis points (1% = 100). The intended domain is
    /// 0 to 10,000, but no upper bound is enforced.
    pub max_slippage_bps: u16,
    /// Unix timestamp after which the request is invalid.
    pub valid_until: i64,
}

/// A current price obtained from the oracle: a non-negative magnitude, held
/// in the same 128-bit width the guard's checked arithmetic works in.
#[derive(Clone, Copy, Debug, PartialEq, Eq, Structural)]
pub struct OraclePrice {
    pub magnitude: u128,
}

/// The holdings and the signing principal a swap operates on.
#[derive(Clone, Copy, Debug, PartialEq, Eq)]
pub struct SwapWithProtection {
    /// The caller's holding, the source of the transfer.
    pub user_token_account: HoldingId,
    /// The pool's holding, the destination of the transfer.
    pub pool_token_account: HoldingId,
    /// The signing principal authorized to move funds out of the source.
    pub user: HoldingId,
}

/// The endpoints of a transfer: source, destination, and the authority that
/// signs for the source.
#[derive(Clone, Copy, Debug, PartialEq, Eq)]
pub struct TransferRoute {
    pub from: HoldingId,
    pub to: HoldingId,
    pub authority: HoldingId,
}

/// The artifact the pipeline authorizes: move exactly `amount` units along
/// `route`. It is constructed only after every guard has passed, and is
/// consumed immediately by the external transfer executor.
#[derive(Clone, Copy, Debug, PartialEq, Eq)]
pub struct TransferInstruction {
    pub route: TransferRoute,
    pub amount: u64,
}

impl SwapWithProtection {
    /// The route a swap's transfer takes: from the user's holding to the
    /// pool's, signed by the user.
    pub open spec fn route(self) -> TransferRoute {
        TransferRoute {
            from: self.user_token_account,
            to: self.pool_token_account,
            authority: self.user,
        }
    }

    /// Builds the transfer route for this swap's accounts.
    pub fn transfer_ctx(&self) -> (r: TransferRoute)
        ensures
            r == self.route(),
    {
        TransferRoute {
            from: self.user_token_account,
            to: self.pool_token_account,
            authority: self.user,
        }
    }
}

} // verus!
