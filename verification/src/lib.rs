//! Verified core of a mempool monitoring probe.
//!
//! The probe queries a blockchain node over JSON-RPC for three fee-market
//! signals (pending transaction count, gas price, latest base fee), decodes
//! the hexadecimal results, and combines them into an anomaly score. This
//! crate holds everything that can be stated and proved: hexadecimal
//! decoding, request construction, response interpretation, and the clamped
//! fee-premium arithmetic. Network transport, the floating-point score
//! weights, and process exit handling live outside, in the surrounding
//! binary.

pub mod hex;
pub mod request;
pub mod response;
pub mod score;

pub use hex::{hex_to_u128, hex_to_u64};
pub use request::{gas_price_request, latest_block_request, rpc_request, txpool_status_request};
pub use response::{
    base_fee_wei, gas_price_wei, pending_count, pending_from_field, quantity_from_field,
    rpc_result, RpcError,
};
pub use score::fee_premium;
