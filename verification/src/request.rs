//! Construction of JSON-RPC 2.0 request bodies.
//!
//! Every request the probe sends has the same shape: protocol version
//! `"2.0"`, fixed id `1`, a method name, and a parameter array. The body is
//! built here by plain concatenation, and the contract pins the resulting
//! text exactly, piece by piece.

use vstd::prelude::*;

verus! {

/// The text of a JSON-RPC 2.0 request body for `method` with the parameter
/// array text `params`.
pub open spec fn rpc_request_text(method: Seq<char>, params: Seq<char>) -> Seq<char> {
    "{\"jsonrpc\":\"2.0\",\"id\":1,\"method\":\""@ + method + "\",\"params\":"@ + params + "}"@
}

/// Builds the JSON-RPC 2.0 request body for `method` with the parameter
/// array text `params`. The method names the probe uses are plain
/// identifiers, and its parameter texts are JSON arrays, so neither needs
/// escaping.
pub fn rpc_request(method: &str, params: &str) -> (r: String)
    ensures
        r@ == rpc_request_text(method@, params@),
{
    let mut s = String::from_str("{\"jsonrpc\":\"2.0\",\"id\":1,\"method\":\"");
    s.append(method);
    s.append("\",\"params\":");
    s.append(params);
    s.append("}");
    s
}

/// The request body asking the node for its transaction-pool status.
pub fn txpool_status_request() -> (r: String)
    ensures
        r@ == rpc_request_text("txpool_status"@, "[]"@),
{
    rpc_request("txpool_status", "[]")
}

/// The request body asking the node for the current gas price.
pub fn gas_price_request() -> (r: String)
    ensures
        r@ == rpc_request_text("eth_gasPrice"@, "[]"@),
{
    rpc_request("eth_gasPrice", "[]")
}

/// The request body asking the node for the latest block, without its
/// transaction bodies.
pub fn latest_block_request() -> (r: String)
    ensures
        r@ == rpc_request_text("eth_getBlockByNumber"@, "[\"latest\",false]"@),
{
    rpc_request("eth_getBlockByNumber", "[\"latest\",false]")
}

} // verus!
