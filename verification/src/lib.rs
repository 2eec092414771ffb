//! A verified guard pipeline that protects a token swap against price
//! manipulation: a request-expiry check, an oracle-price resolution step, and
//! a slippage-bound computation in overflow-checked arithmetic, all of which
//! must pass before a transfer instruction is authorized.

pub mod error;
pub mod laws;
pub mod pipeline;
pub mod request;
pub mod slippage;
