//! JSON-RPC 2.0 request and response objects, and the error replies the
//! ingress sends on its own.

use vstd::prelude::*;
use vstd::string::StringExecFns;

verus! {

/// Any JSON value, as `serde_json` holds it. The library carries such values
/// (request ids, parameters, results) through unchanged and never looks inside.
#[verifier::external_type_specification]
#[verifier::external_body]
pub struct ExJsonValue(serde_json::Value);

/// JSON-RPC error code for a request whose text is not a valid request object.
pub const PARSE_ERROR_CODE: i64 = -32700;

/// JSON-RPC error code for a request that names a method the ingress does not serve.
pub const METHOD_NOT_FOUND_CODE: i64 = -32601;

/// JSON-RPC error code for a failure inside the ingress.
pub const INTERNAL_ERROR_CODE: i64 = -32603;

/// HTTP status of a response that carries a JSON-RPC error.
pub const HTTP_BAD_REQUEST: u16 = 400;

/// HTTP status of a response that carries no JSON-RPC error.
pub const HTTP_OK: u16 = 200;

/// A JSON-RPC request object. See <https://www.jsonrpc.org/specification#request_object>.
#[derive(Debug)]
pub struct JsonRpcRequest {
    pub id: serde_json::Value,
    pub jsonrpc: String,
    pub method: String,
    pub params: Option<serde_json::Value>,
}

/// The `error` member of a response.
#[derive(Debug)]
pub struct JsonRpcError {
    pub code: i64,
    pub message: String,
    /// Extra information, as raw JSON text.
    pub data: Option<String>,
}

/// A JSON-RPC response object. See <https://www.jsonrpc.org/specification#response_object>.
#[derive(Debug)]
pub struct JsonRpcResponse {
    pub id: Option<serde_json::Value>,
    pub jsonrpc: String,
    pub error: Option<JsonRpcError>,
    pub result: Option<serde_json::Value>,
}

/// What a request says.
pub struct RequestView {
    pub id: serde_json::Value,
    pub jsonrpc: Seq<char>,
    pub method: Seq<char>,
    pub params: Option<serde_json::Value>,
}

/// What an error object says.
pub struct ErrorView {
    pub code: i64,
    pub message: Seq<char>,
    pub data: Option<Seq<char>>,
}

/// What a response says.
pub struct ResponseView {
    pub id: Option<serde_json::Value>,
    pub jsonrpc: Seq<char>,
    pub error: Option<ErrorView>,
    pub result: Option<serde_json::Value>,
}

impl View for JsonRpcRequest {
    type V = RequestView;

    open spec fn view(&self) -> RequestView {
        RequestView { id: self.id, jsonrpc: self.jsonrpc@, method: self.method@, params: self.params }
    }
}

impl View for JsonRpcError {
    type V = ErrorView;

    open spec fn view(&self) -> ErrorView {
        ErrorView { code: self.code, message: self.message@, data: self.data.deep_view() }
    }
}

impl View for JsonRpcResponse {
    type V = ResponseView;

    open spec fn view(&self) -> ResponseView {
        ResponseView {
            id: self.id,
            jsonrpc: self.jsonrpc@,
            error: match self.error {
                Some(e) => Some(e@),
                None => None,
            },
            result: self.result,
        }
    }
}

/// The protocol version every response names.
pub open spec fn jsonrpc_version() -> Seq<char> {
    "2.0"@
}

/// An error response with the given id, code and message, and no data or result.
pub open spec fn error_response(id: Option<serde_json::Value>, code: i64, message: Seq<char>) -> ResponseView {
    ResponseView {
        id,
        jsonrpc: jsonrpc_version(),
        error: Some(ErrorView { code, message, data: None }),
        result: None,
    }
}

/// The reply to a body that is not a JSON-RPC request: it cannot name an id.
pub open spec fn parse_error_response() -> ResponseView {
    error_response(None, PARSE_ERROR_CODE, "Parse error"@)
}

/// The text of the error that answers a request for method `method`.
pub open spec fn method_not_found_message(method: Seq<char>) -> Seq<char> {
    "Method "@ + method + " not found"@
}

/// The reply to a request for a method the ingress does not serve.
pub open spec fn method_not_found_response(id: serde_json::Value, method: Seq<char>) -> ResponseView {
    error_response(Some(id), METHOD_NOT_FOUND_CODE, method_not_found_message(method))
}

/// The reply to a request that failed inside the ingress.
pub open spec fn internal_error_response(id: serde_json::Value) -> ResponseView {
    error_response(Some(id), INTERNAL_ERROR_CODE, "Internal error"@)
}

/// The HTTP status that a response is sent with.
pub open spec fn http_status_of(response: ResponseView) -> u16 {
    if response.error is Some {
        HTTP_BAD_REQUEST
    } else {
        HTTP_OK
    }
}

fn error_reply(id: Option<serde_json::Value>, code: i64, message: String) -> (res: JsonRpcResponse)
    ensures
        res@ == error_response(id, code, message@),
{
    JsonRpcResponse {
        id,
        jsonrpc: String::from_str("2.0"),
        error: Some(JsonRpcError { code, message, data: None }),
        result: None,
    }
}

impl JsonRpcResponse {
    /// Represents error caused by a JSON-RPC request that could not be parsed
    pub fn parse_error() -> (res: Self)
        ensures
            res@ == parse_error_response(),
    {
        error_reply(None, PARSE_ERROR_CODE, String::from_str("Parse error"))
    }

    /// Represents an error caused by the request sending an unrecognized `method` field
    pub fn method_not_found(id: serde_json::Value, method: String) -> (res: Self)
        ensures
            res@ == method_not_found_response(id, method@),
    {
        let mut message = String::from_str("Method ");
        message.append(method.as_str());
        message.append(" not found");
        error_reply(Some(id), METHOD_NOT_FOUND_CODE, message)
    }

    /// Represents an error caused by some operation internal to the server
    pub fn internal_error(id: serde_json::Value) -> (res: Self)
        ensures
            res@ == internal_error_response(id),
    {
        error_reply(Some(id), INTERNAL_ERROR_CODE, String::from_str("Internal error"))
    }

    /// The HTTP status this response is sent with: Bad Request when it
    /// carries an error, OK otherwise.
    pub fn status_code(&self) -> (code: u16)
        ensures
            code == http_status_of(self@),
    {
        if self.error.is_some() {
            HTTP_BAD_REQUEST
        } else {
            HTTP_OK
        }
    }
}

/// Every reply that the ingress makes up itself is an error, and is sent
/// with HTTP status 400 (Bad Request), whatever the id and the method.
pub proof fn lemma_refusals_are_bad_requests(id: serde_json::Value, method: Seq<char>)
    ensures
        http_status_of(parse_error_response()) == HTTP_BAD_REQUEST,
        http_status_of(method_not_found_response(id, method)) == HTTP_BAD_REQUEST,
        http_status_of(internal_error_response(id)) == HTTP_BAD_REQUEST,
{
}

/// The replies the ingress makes up, spelled out: each names version
/// `2.0`, carries no result and an error without data; a parse error has no
/// id, code -32700 and message `Parse error`; a refused method keeps the
/// request's id, has code -32601 and the message `Method <name> not found`;
/// an internal error keeps the id, with code -32603 and message
/// `Internal error`.
pub proof fn lemma_error_replies_spelled_out(id: serde_json::Value, method: Seq<char>)
    ensures
        parse_error_response() == (ResponseView {
            id: None,
            jsonrpc: "2.0"@,
            error: Some(ErrorView { code: -32700i64, message: "Parse error"@, data: None }),
            result: None,
        }),
        method_not_found_response(id, method) == (ResponseView {
            id: Some(id),
            jsonrpc: "2.0"@,
            error: Some(ErrorView { code: -32601i64, message: "Method "@ + method + " not found"@, data: None }),
            result: None,
        }),
        internal_error_response(id) == (ResponseView {
            id: Some(id),
            jsonrpc: "2.0"@,
            error: Some(ErrorView { code: -32603i64, message: "Internal error"@, data: None }),
            result: None,
        }),
{
}

/// The message of a refused method starts with `Method `, ends with
/// ` not found`, and holds the method's name, whole, between the two.
pub proof fn lemma_method_not_found_message_names_the_method(method: Seq<char>)
    ensures
        method_not_found_message(method).len() == method.len() + 17,
        method_not_found_message(method).subrange(0, 7) == "Method "@,
        method_not_found_message(method).subrange(7, 7 + method.len() as int) == method,
        method_not_found_message(method).subrange(7 + method.len() as int, 17 + method.len() as int as int) == " not found"@,
{
    reveal_strlit("Method ");
    reveal_strlit(" not found");
    let m = method_not_found_message(method);
    assert(m.subrange(0, 7) =~= "Method "@);
    assert(m.subrange(7, 7 + method.len() as int) =~= method);
    assert(m.subrange(7 + method.len() as int, 17 + method.len() as int as int) =~= " not found"@);
}

/// A response is sent with HTTP 400 exactly when it carries an error, and
/// with HTTP 200 otherwise.
pub proof fn lemma_status_follows_error(response: ResponseView)
    ensures
        (http_status_of(response) == 400) <==> response.error is Some,
        (http_status_of(response) == 200) <==> response.error is None,
{
}

/// What a request, an error and a response say is what their fields hold:
/// the same id, version, method, parameters, code, message, data and result.
pub proof fn lemma_views_keep_every_field(request: JsonRpcRequest, error: JsonRpcError, response: JsonRpcResponse)
    ensures
        request@ == (RequestView {
            id: request.id,
            jsonrpc: request.jsonrpc@,
            method: request.method@,
            params: request.params,
        }),
        error@ == (ErrorView { code: error.code, message: error.message@, data: error.data.deep_view() }),
        response@.id == response.id,
        response@.jsonrpc == response.jsonrpc@,
        response@.result == response.result,
        response@.error is Some <==> response.error is Some,
        response.error matches Some(e) ==> response@.error == Some(e@),
{
}

} // verus!
