use tezos_codec::operation::ActivateAccount;
use tezos_codec::operation::Ed25519PublicKeyHash;
use tezos_codec::operation::HexString;
use tezos_codec::rpc::big_maps;
use tezos_codec::rpc::contract;
use tezos_codec::rpc::contract::delegate;
use tezos_codec::rpc::contract::entrypoints;
use tezos_codec::rpc::contract::entrypoints::entrypoint;
use tezos_codec::rpc::decimal_text;
use tezos_codec::rpc::handle_response;
use tezos_codec::rpc::normalize_types_query;
use tezos_codec::rpc::BlockID;
use tezos_codec::rpc::ResponseBody;
use tezos_codec::rpc::TezosRPCContext;

fn context() -> TezosRPCContext {
    TezosRPCContext { rpc_endpoint: "http://localhost:8732".to_string(), chain_id: "main".to_string() }
}

#[test]
fn block_names() {
    assert_eq!(BlockID::Head.value(), "head");
    assert_eq!(BlockID::Level(1).value(), "1");
    assert_eq!(BlockID::Level(0).value(), "0");
    assert_eq!(BlockID::Level(2147483647).value(), "2147483647");
    assert_eq!(BlockID::Level(-3).value(), "head~3");
    assert_eq!(BlockID::Level(i32::MIN).value(), "head~2147483648");
}

#[test]
fn decimal_digits() {
    assert_eq!(decimal_text(0), "0");
    assert_eq!(decimal_text(9), "9");
    assert_eq!(decimal_text(10), "10");
    assert_eq!(decimal_text(4294967295), "4294967295");
}

#[test]
fn paths() {
    let chain = "main".to_string();
    let address = "KT1HxgqnVjGy7KsSUTEsQ6LgpD5iKSGu7QpA".to_string();
    assert_eq!(
        tezos_codec::rpc::path(&chain, &BlockID::Head),
        "/chains/main/blocks/head/context"
    );
    assert_eq!(
        big_maps::path(&chain, &BlockID::Level(5)),
        "/chains/main/blocks/5/context/big_maps"
    );
    assert_eq!(
        contract::path(&chain, &BlockID::Level(1), &address),
        "/chains/main/blocks/1/context/contracts/KT1HxgqnVjGy7KsSUTEsQ6LgpD5iKSGu7QpA"
    );
    assert_eq!(
        delegate::path(&chain, &BlockID::Level(1), &address),
        "/chains/main/blocks/1/context/contracts/KT1HxgqnVjGy7KsSUTEsQ6LgpD5iKSGu7QpA/delegate"
    );
    assert_eq!(
        entrypoints::path("main", &BlockID::Head, "KT1"),
        "/chains/main/blocks/head/context/contracts/KT1/entrypoints"
    );
    assert_eq!(
        entrypoint::path("main", &BlockID::Head, "KT1", "settle_with_vault"),
        "/chains/main/blocks/head/context/contracts/KT1/entrypoints/settle_with_vault"
    );
}

#[test]
fn contract_request() {
    let ctx = context();
    let address = "KT1HxgqnVjGy7KsSUTEsQ6LgpD5iKSGu7QpA".to_string();
    let block_id = BlockID::Level(1);
    let plain = contract::get(&ctx, &address).request();
    assert_eq!(
        plain.path,
        "/chains/main/blocks/head/context/contracts/KT1HxgqnVjGy7KsSUTEsQ6LgpD5iKSGu7QpA"
    );
    assert!(plain.query.is_empty());
    let mut builder = contract::get(&ctx, &address);
    let request = builder.normalize_types(true).block_id(&block_id).request();
    assert_eq!(
        request.path,
        "/chains/main/blocks/1/context/contracts/KT1HxgqnVjGy7KsSUTEsQ6LgpD5iKSGu7QpA"
    );
    assert_eq!(request.query, vec![("normalize_types".to_string(), "true".to_string())]);
}

#[test]
fn contract_request_on_another_chain() {
    let ctx = context();
    let address = "KT1".to_string();
    let chain = "test".to_string();
    let mut builder = contract::RPCRequestBuilder::new(&ctx, &address);
    let request = builder.chain_id(&chain).normalize_types(false).request();
    assert_eq!(request.path, "/chains/test/blocks/head/context/contracts/KT1");
    assert_eq!(request.query, vec![("normalize_types".to_string(), "false".to_string())]);
}

#[test]
fn delegate_request() {
    let ctx = context();
    let address = "tz1bLUuUBWtJqFX2Hz3A3whYE5SNTAGHjcpL".to_string();
    let block_id = BlockID::Level(1);
    let chain = "test".to_string();
    let mut builder = delegate::get(&ctx, &address);
    let request = builder.block_id(&block_id).chain_id(&chain).request();
    assert_eq!(
        request.path,
        "/chains/test/blocks/1/context/contracts/tz1bLUuUBWtJqFX2Hz3A3whYE5SNTAGHjcpL/delegate"
    );
    assert!(request.query.is_empty());
    let first = delegate::RPCRequestBuilder::new(&ctx, &address).request();
    assert_eq!(
        first.path,
        "/chains/main/blocks/head/context/contracts/tz1bLUuUBWtJqFX2Hz3A3whYE5SNTAGHjcpL/delegate"
    );
}

#[test]
fn delegate_of_a_response() {
    let found: Result<String, u8> = Ok("tz1".to_string());
    assert_eq!(delegate::delegate_of(found), Some("tz1".to_string()));
    let failed: Result<String, u8> = Err(4);
    assert_eq!(delegate::delegate_of(failed), None);
}

#[test]
fn entrypoint_request() {
    let ctx = context();
    let block_id = BlockID::Level(1);
    let chain = "test".to_string();
    let mut builder =
        entrypoint::get(&ctx, "KT1HxgqnVjGy7KsSUTEsQ6LgpD5iKSGu7QpA", "settle_with_vault");
    let request = builder.normalize_types(true).block_id(&block_id).request();
    assert_eq!(
        request.path,
        "/chains/main/blocks/1/context/contracts/KT1HxgqnVjGy7KsSUTEsQ6LgpD5iKSGu7QpA/entrypoints/settle_with_vault"
    );
    assert_eq!(request.query, vec![("normalize_types".to_string(), "true".to_string())]);
    let mut other = entrypoint::RpcRequestBuilder::new(&ctx, "KT1", "default");
    let request = other.chain_id(&chain).request();
    assert_eq!(request.path, "/chains/test/blocks/head/context/contracts/KT1/entrypoints/default");
    assert!(request.query.is_empty());
}

#[test]
fn query_of_a_choice() {
    assert!(normalize_types_query(None).is_empty());
    assert_eq!(
        normalize_types_query(Some(false)),
        vec![("normalize_types".to_string(), "false".to_string())]
    );
}

#[test]
fn responses() {
    assert_eq!(handle_response(200, true), ResponseBody::Value);
    assert_eq!(handle_response(200, false), ResponseBody::Value);
    assert_eq!(handle_response(404, true), ResponseBody::Errors);
    assert_eq!(handle_response(500, false), ResponseBody::PlainError);
}

#[test]
fn url_and_endpoint() {
    let mut ctx = context();
    assert_eq!(ctx.url("/chains/main"), "http://localhost:8732/chains/main");
    ctx.change_rpc_endpoint("https://node".to_string());
    assert_eq!(ctx.url("/x"), "https://node/x");
    assert_eq!(ctx.chain_id, "main");
}

#[test]
fn activate_account() {
    let pkh = Ed25519PublicKeyHash { value: "tz1bLUuUBWtJqFX2Hz3A3whYE5SNTAGHjcpL".to_string() };
    let secret = HexString { value: "0a0b".to_string() };
    let operation = ActivateAccount::new(pkh.clone(), secret.clone());
    assert_eq!(operation.pkh(), &pkh);
    assert_eq!(operation.secret(), &secret);
    assert_eq!(ActivateAccount::tag(), 4);
}
