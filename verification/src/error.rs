//! The terminal failure kinds of the swap guard pipeline.

use vstd::prelude::*;

verus! {

/// Why the pipeline refused to authorize a transfer. Every failure is
/// terminal: nothing is retried, and no transfer is authorized.
#[derive(Clone, Copy, Debug, PartialEq, Eq, Structural)]
pub enum SwapError {
    /// The current time is past the request's `valid_until` timestamp.
    TransactionExpired,
    /// The oracle produced no usable current price.
    InvalidPrice,
    /// The computed minimum acceptable output is below the caller's floor.
    SlippageExceeded,
    /// An intermediate computation left the representable range.
    ArithmeticOverflow,
}

} // verus!
