use cosmin::jsonrpc::{
    JsonRpcResponse, HTTP_BAD_REQUEST, HTTP_OK, INTERNAL_ERROR_CODE, METHOD_NOT_FOUND_CODE,
    PARSE_ERROR_CODE,
};
use serde_json::Value;

#[test]
fn parse_error_has_no_id() {
    let response = JsonRpcResponse::parse_error();
    assert!(response.id.is_none());
    assert_eq!(response.jsonrpc, "2.0");
    assert!(response.result.is_none());
    let error = response.error.as_ref().unwrap();
    assert_eq!(error.code, -32700);
    assert_eq!(error.code, PARSE_ERROR_CODE);
    assert_eq!(error.message, "Parse error");
    assert!(error.data.is_none());
    assert_eq!(response.status_code(), 400);
}

#[test]
fn method_not_found_names_the_method_and_keeps_the_id() {
    let response = JsonRpcResponse::method_not_found(Value::from(7), "abci_info".to_string());
    assert_eq!(response.id, Some(Value::from(7)));
    assert_eq!(response.jsonrpc, "2.0");
    assert!(response.result.is_none());
    let error = response.error.as_ref().unwrap();
    assert_eq!(error.code, -32601);
    assert_eq!(error.code, METHOD_NOT_FOUND_CODE);
    assert_eq!(error.message, "Method abci_info not found");
    assert!(error.data.is_none());
    assert_eq!(response.status_code(), HTTP_BAD_REQUEST);
}

#[test]
fn method_not_found_with_empty_method() {
    let response = JsonRpcResponse::method_not_found(Value::String("a".to_string()), String::new());
    assert_eq!(response.error.as_ref().unwrap().message, "Method  not found");
    assert_eq!(response.id, Some(Value::String("a".to_string())));
}

#[test]
fn internal_error_keeps_the_id() {
    let response = JsonRpcResponse::internal_error(Value::Null);
    assert_eq!(response.id, Some(Value::Null));
    assert_eq!(response.jsonrpc, "2.0");
    let error = response.error.as_ref().unwrap();
    assert_eq!(error.code, -32603);
    assert_eq!(error.code, INTERNAL_ERROR_CODE);
    assert_eq!(error.message, "Internal error");
    assert_eq!(response.status_code(), 400);
}

#[test]
fn response_without_error_is_ok() {
    let response = JsonRpcResponse {
        id: Some(Value::from(1)),
        jsonrpc: "2.0".to_string(),
        error: None,
        result: Some(Value::Bool(true)),
    };
    assert_eq!(response.status_code(), 200);
    assert_eq!(response.status_code(), HTTP_OK);
}
