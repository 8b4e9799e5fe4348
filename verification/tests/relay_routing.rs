use cosmin::jsonrpc::{JsonRpcRequest, HTTP_BAD_REQUEST};
use cosmin::node::NodeUrlError;
use cosmin::relay::{
    answer_rpc, answer_rpc_with, relay_to, relays_method, route_root, status_url, RootRoute,
    RpcOutcome,
};
use serde_json::Value;

fn request(id: i64, method: &str) -> JsonRpcRequest {
    JsonRpcRequest {
        id: Value::from(id),
        jsonrpc: "2.0".to_string(),
        method: method.to_string(),
        params: None,
    }
}

fn headers_of(pairs: &[(&str, &str)]) -> Vec<(String, String)> {
    pairs.iter().map(|(n, v)| (n.to_string(), v.to_string())).collect()
}

#[test]
fn root_route_page_or_rpc() {
    assert_eq!(route_root(true, b"{}"), RootRoute::NodePage);
    assert_eq!(route_root(true, b""), RootRoute::NodePage);
    assert_eq!(route_root(false, b""), RootRoute::NodePage);
    assert_eq!(route_root(false, b"{}"), RootRoute::JsonRpc);
}

#[test]
fn only_status_and_broadcast_are_relayed() {
    assert!(relays_method(&"status".to_string()));
    assert!(relays_method(&"broadcast_tx_commit".to_string()));
    assert!(!relays_method(&"abci_info".to_string()));
    assert!(!relays_method(&"Status".to_string()));
    assert!(!relays_method(&"status ".to_string()));
    assert!(!relays_method(&String::new()));
}

#[test]
fn status_url_appends_path() {
    assert_eq!(status_url("http://happy-path:26657"), "http://happy-path:26657/status");
    assert_eq!(status_url(""), "/status");
}

#[test]
fn unparsed_body_gets_parse_error() {
    match answer_rpc(None, "http://happy-path:26657", b"not json".to_vec()) {
        RpcOutcome::Reply(response) => {
            assert!(response.id.is_none());
            assert_eq!(response.error.as_ref().unwrap().code, -32700);
            assert_eq!(response.status_code(), HTTP_BAD_REQUEST);
        }
        other => panic!("unexpected outcome {:?}", other),
    }
}

#[test]
fn status_request_is_relayed_unchanged() {
    let body = br#"{"jsonrpc":"2.0","id":3,"method":"status"}"#.to_vec();
    match answer_rpc(Some(request(3, "status")), "http://happy-path:26657", body.clone()) {
        RpcOutcome::Relay(plan) => {
            assert_eq!(plan.url, "http://happy-path:26657");
            assert_eq!(plan.body, body);
            assert_eq!(plan.id, Value::from(3));
            assert_eq!(
                plan.headers,
                headers_of(&[
                    ("Content-Type", "application/json"),
                    ("Content-Length", &body.len().to_string()),
                    ("Accept", "*/*"),
                    ("Host", "happy-path:26657"),
                ])
            );
            assert_eq!(plan.headers[1].1, "42");
        }
        other => panic!("unexpected outcome {:?}", other),
    }
}

#[test]
fn broadcast_request_uses_default_port() {
    let body = b"{\"method\":\"broadcast_tx_commit\"}".to_vec();
    match answer_rpc(Some(request(1, "broadcast_tx_commit")), "http://node.example", body.clone()) {
        RpcOutcome::Relay(plan) => {
            assert_eq!(plan.url, "http://node.example");
            assert_eq!(plan.headers[3], ("Host".to_string(), "node.example:80".to_string()));
            assert_eq!(plan.body, body);
        }
        other => panic!("unexpected outcome {:?}", other),
    }
}

#[test]
fn other_method_is_refused() {
    match answer_rpc(Some(request(9, "abci_info")), "http://happy-path:26657", b"{}".to_vec()) {
        RpcOutcome::Reply(response) => {
            assert_eq!(response.id, Some(Value::from(9)));
            let error = response.error.as_ref().unwrap();
            assert_eq!(error.code, -32601);
            assert_eq!(error.message, "Method abci_info not found");
            assert_eq!(response.status_code(), 400);
        }
        other => panic!("unexpected outcome {:?}", other),
    }
}

#[test]
fn other_method_refused_even_with_bad_node_url() {
    match answer_rpc(Some(request(2, "health")), "not a url", b"{}".to_vec()) {
        RpcOutcome::Reply(response) => {
            assert_eq!(response.error.as_ref().unwrap().message, "Method health not found");
        }
        other => panic!("unexpected outcome {:?}", other),
    }
}

#[test]
fn relayed_method_with_bad_node_url() {
    match answer_rpc(Some(request(2, "status")), "not a url", b"{}".to_vec()) {
        RpcOutcome::BadNodeUrl(err) => assert_eq!(err, NodeUrlError::Unparsable),
        other => panic!("unexpected outcome {:?}", other),
    }
    match answer_rpc(Some(request(2, "status")), "foo://example.com", b"{}".to_vec()) {
        RpcOutcome::BadNodeUrl(err) => assert_eq!(err, NodeUrlError::MissingPort),
        other => panic!("unexpected outcome {:?}", other),
    }
}

#[test]
fn answer_with_given_authority() {
    let authority = Some((Some("h".to_string()), Some(7u16)));
    match answer_rpc_with(Some(request(5, "status")), "x", authority, vec![1, 2, 3]) {
        RpcOutcome::Relay(plan) => {
            assert_eq!(plan.url, "x");
            assert_eq!(plan.body, vec![1, 2, 3]);
            assert_eq!(plan.headers[1].1, "3");
            assert_eq!(plan.headers[3].1, "h:7");
        }
        other => panic!("unexpected outcome {:?}", other),
    }
    match answer_rpc_with(Some(request(5, "status")), "x", Some((None, Some(7))), vec![]) {
        RpcOutcome::BadNodeUrl(err) => assert_eq!(err, NodeUrlError::MissingHost),
        other => panic!("unexpected outcome {:?}", other),
    }
}

#[test]
fn relay_to_builds_headers() {
    let endpoint = cosmin::node::node_endpoint("http://happy-path:26657").unwrap();
    let plan = relay_to("http://happy-path:26657", &endpoint, vec![0u8; 1234], Value::from(4));
    assert_eq!(plan.headers[1], ("Content-Length".to_string(), "1234".to_string()));
    assert_eq!(plan.headers[3], ("Host".to_string(), "happy-path:26657".to_string()));
    assert_eq!(plan.id, Value::from(4));
}
