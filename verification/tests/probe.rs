use mempool_guard::{
    base_fee_wei, fee_premium, gas_price_request, gas_price_wei, hex_to_u128, hex_to_u64,
    latest_block_request, pending_count, pending_from_field, quantity_from_field, rpc_request,
    txpool_status_request, RpcError,
};

#[test]
fn decodes_with_prefix() {
    assert_eq!(hex_to_u64("0x64"), 100);
    assert_eq!(hex_to_u64("0x0"), 0);
    assert_eq!(hex_to_u64("0x2540be400"), 10_000_000_000);
}

#[test]
fn decodes_without_prefix() {
    assert_eq!(hex_to_u64("64"), 100);
    assert_eq!(hex_to_u64("ff"), 255);
}

#[test]
fn decodes_either_case() {
    assert_eq!(hex_to_u64("0xFF"), 255);
    assert_eq!(hex_to_u64("0xDeadBeef"), 3_735_928_559);
}

#[test]
fn empty_and_bare_prefix_decode_to_zero() {
    assert_eq!(hex_to_u64(""), 0);
    assert_eq!(hex_to_u64("0x"), 0);
    assert_eq!(hex_to_u128("0x"), 0);
}

#[test]
fn malformed_decodes_to_zero() {
    assert_eq!(hex_to_u64("xyz"), 0);
    assert_eq!(hex_to_u64("0x1g"), 0);
    assert_eq!(hex_to_u64(" 0x10"), 0);
    assert_eq!(hex_to_u64("0x10 "), 0);
    assert_eq!(hex_to_u64("-1"), 0);
}

#[test]
fn plus_sign_is_accepted() {
    assert_eq!(hex_to_u64("+1f"), 31);
    assert_eq!(hex_to_u64("0x+1f"), 31);
}

#[test]
fn one_prefix_is_stripped_not_two() {
    assert_eq!(hex_to_u64("0x0x10"), 0);
}

#[test]
fn value_beyond_width_decodes_to_zero() {
    assert_eq!(hex_to_u64("0xffffffffffffffff"), u64::MAX);
    assert_eq!(hex_to_u64("0x10000000000000000"), 0);
    assert_eq!(hex_to_u128("0x10000000000000000"), 1u128 << 64);
    assert_eq!(
        hex_to_u128("0xffffffffffffffffffffffffffffffff"),
        u128::MAX
    );
    assert_eq!(hex_to_u128("0x100000000000000000000000000000000"), 0);
}

#[test]
fn request_bodies_have_the_fixed_shape() {
    assert_eq!(
        txpool_status_request(),
        "{\"jsonrpc\":\"2.0\",\"id\":1,\"method\":\"txpool_status\",\"params\":[]}"
    );
    assert_eq!(
        gas_price_request(),
        "{\"jsonrpc\":\"2.0\",\"id\":1,\"method\":\"eth_gasPrice\",\"params\":[]}"
    );
    assert_eq!(
        latest_block_request(),
        "{\"jsonrpc\":\"2.0\",\"id\":1,\"method\":\"eth_getBlockByNumber\",\"params\":[\"latest\",false]}"
    );
    assert_eq!(
        rpc_request("eth_blockNumber", "[]"),
        "{\"jsonrpc\":\"2.0\",\"id\":1,\"method\":\"eth_blockNumber\",\"params\":[]}"
    );
}

#[test]
fn pending_count_reads_the_pending_field() {
    let body = r#"{"jsonrpc":"2.0","id":1,"result":{"pending":"0x64","queued":"0x2"}}"#;
    assert_eq!(pending_count(Some(body)), 100);
}

#[test]
fn pending_count_is_zero_without_a_response() {
    assert_eq!(pending_count(None), 0);
}

#[test]
fn pending_count_is_zero_on_malformed_body() {
    assert_eq!(pending_count(Some("not json")), 0);
}

#[test]
fn pending_count_is_zero_on_error_reply() {
    let body = r#"{"jsonrpc":"2.0","id":1,"error":{"code":-32601,"message":"no txpool"}}"#;
    assert_eq!(pending_count(Some(body)), 0);
}

#[test]
fn pending_count_is_zero_on_missing_or_nonstring_field() {
    assert_eq!(
        pending_count(Some(r#"{"jsonrpc":"2.0","id":1,"result":{}}"#)),
        0
    );
    assert_eq!(
        pending_count(Some(r#"{"jsonrpc":"2.0","id":1,"result":{"pending":100}}"#)),
        0
    );
    assert_eq!(pending_count(Some(r#"{"jsonrpc":"2.0","id":1}"#)), 0);
}

#[test]
fn gas_price_fails_without_a_response() {
    assert!(matches!(gas_price_wei(None), Err(RpcError::Transport)));
}

#[test]
fn gas_price_reads_the_result_string() {
    let body = r#"{"jsonrpc":"2.0","id":1,"result":"0x2540be400"}"#;
    assert_eq!(gas_price_wei(Some(body)), Ok(10_000_000_000));
}

#[test]
fn gas_price_fails_on_malformed_body() {
    assert!(matches!(
        gas_price_wei(Some("garbage")),
        Err(RpcError::MalformedBody)
    ));
}

#[test]
fn gas_price_surfaces_an_error_reply() {
    let body = r#"{"jsonrpc":"2.0","id":1,"error":{"code":-32601,"message":"method not found"}}"#;
    match gas_price_wei(Some(body)) {
        Err(RpcError::ErrorReply(payload)) => {
            assert_eq!(payload, r#"{"code":-32601,"message":"method not found"}"#);
        }
        other => panic!("expected an error reply, got {:?}", other),
    }
}

#[test]
fn gas_price_nonstring_result_reads_as_zero() {
    assert_eq!(
        gas_price_wei(Some(r#"{"jsonrpc":"2.0","id":1,"result":100}"#)),
        Ok(0)
    );
    assert_eq!(gas_price_wei(Some(r#"{"jsonrpc":"2.0","id":1}"#)), Ok(0));
}

#[test]
fn base_fee_reads_the_block_field() {
    let body = r#"{"jsonrpc":"2.0","id":1,"result":{"number":"0x10","baseFeePerGas":"0x3b9aca00"}}"#;
    assert_eq!(base_fee_wei(Some(body)), Ok(1_000_000_000));
}

#[test]
fn base_fee_missing_field_reads_as_zero_hex() {
    let without = r#"{"jsonrpc":"2.0","id":1,"result":{"number":"0x10"}}"#;
    let explicit = r#"{"jsonrpc":"2.0","id":1,"result":{"number":"0x10","baseFeePerGas":"0x0"}}"#;
    assert_eq!(base_fee_wei(Some(without)), Ok(0));
    assert_eq!(base_fee_wei(Some(without)), base_fee_wei(Some(explicit)));
}

#[test]
fn base_fee_fails_like_gas_price() {
    assert!(matches!(base_fee_wei(None), Err(RpcError::Transport)));
    assert!(matches!(
        base_fee_wei(Some("{{")),
        Err(RpcError::MalformedBody)
    ));
    let body = r#"{"jsonrpc":"2.0","id":1,"error":{"code":-32000,"message":"boom"}}"#;
    assert!(matches!(
        base_fee_wei(Some(body)),
        Err(RpcError::ErrorReply(_))
    ));
}

#[test]
fn field_defaults_match_the_decoders() {
    assert_eq!(pending_from_field(None), 0);
    assert_eq!(pending_from_field(Some("0x64")), 100);
    assert_eq!(quantity_from_field(None), 0);
    assert_eq!(quantity_from_field(Some("0x0")), 0);
    assert_eq!(quantity_from_field(Some("0x3b9aca00")), 1_000_000_000);
}

#[test]
fn premium_is_clamped_at_equality_and_below() {
    assert_eq!(fee_premium(5, 5), 0);
    assert_eq!(fee_premium(3, 5), 0);
    assert_eq!(fee_premium(0, u128::MAX), 0);
    assert_eq!(fee_premium(u128::MAX - 1, u128::MAX), 0);
}

#[test]
fn premium_is_the_difference_above_base() {
    assert_eq!(
        fee_premium(50_000_000_000, 30_000_000_000),
        20_000_000_000
    );
    assert_eq!(fee_premium(1, 0), 1);
}

#[test]
fn score_is_pure_and_deterministic() {
    // With the fixed weights, a wei-scale premium of 2e10 contributes
    // 2e-10 to the score, so the pending term dominates here.
    let pool_body = r#"{"jsonrpc":"2.0","id":1,"result":{"pending":"0x64"}}"#;
    let pending = pending_count(Some(pool_body));
    assert_eq!(pending, 100);
    let premium = fee_premium(50_000_000_000, 30_000_000_000);
    assert_eq!(premium, 20_000_000_000);
    let score = (pending as f64) * 0.001 + (premium as f64) * 1e-20;
    let again = (pending as f64) * 0.001 + (premium as f64) * 1e-20;
    assert_eq!(score, again);
    assert_eq!(score, 0.1 + 2.0e-10);
    assert_eq!(format!("{:.4}", score), "0.1000");
}
