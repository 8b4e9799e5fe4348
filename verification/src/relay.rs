//! How the ingress answers what reaches its root: page requests go to the
//! node's page, JSON-RPC requests for the methods it lets through are
//! relayed to the node as they came, and every other request is refused.

use vstd::prelude::*;
use vstd::string::StringExecFns;

use crate::decimal::{
    decimal_digits, decimal_text, decimal_value, is_digit, lemma_decimal_digits_denote,
};
use crate::jsonrpc::{
    http_status_of, method_not_found_response, parse_error_response, ErrorView, JsonRpcRequest,
    JsonRpcResponse, RequestView, ResponseView, HTTP_BAD_REQUEST,
};
use crate::node::{
    endpoint_from_authority, endpoint_of, parse_url_authority, url_authority, NodeEndpoint,
    NodeUrlError,
};

verus! {

/// The two ways the root answers a request.
#[derive(Clone, Copy, Debug, PartialEq, Eq, Structural)]
pub enum RootRoute {
    /// Fetch the node's page and hand it back as HTML.
    NodePage,
    /// Read the body as a JSON-RPC request.
    JsonRpc,
}

/// A request is answered with the node's page when it is a GET or has an
/// empty body.
pub open spec fn serves_node_page(is_get: bool, body_len: nat) -> bool {
    is_get || body_len == 0
}

/// How the root answers a request whose method is a GET (`is_get`) or not,
/// with body `body`.
pub fn route_root(is_get: bool, body: &[u8]) -> (route: RootRoute)
    ensures
        (route == RootRoute::NodePage) == serves_node_page(is_get, body@.len()),
        (route == RootRoute::NodePage) <==> (is_get || body@.len() == 0),
        (route == RootRoute::JsonRpc) <==> (!is_get && body@.len() > 0),
{
    if is_get || body.len() == 0 {
        RootRoute::NodePage
    } else {
        RootRoute::JsonRpc
    }
}

/// The name the content-type header goes by in a header map, which spells
/// every header name in lower case.
pub open spec fn content_type_name() -> Seq<char> {
    "content-type"@
}

/// The bytes of `text/html`.
pub open spec fn text_html() -> Seq<u8> {
    seq![116u8, 101u8, 120u8, 116u8, 47u8, 104u8, 116u8, 109u8, 108u8]
}

/// The headers `headers` without those named `name`, in their order.
pub open spec fn without_header(headers: Seq<(Seq<char>, Seq<u8>)>, name: Seq<char>) -> Seq<(Seq<char>, Seq<u8>)>
    decreases headers.len(),
{
    if headers.len() == 0 {
        Seq::empty()
    } else {
        let rest = without_header(headers.drop_last(), name);
        if headers.last().0 == name {
            rest
        } else {
            rest.push(headers.last())
        }
    }
}

/// The headers a page request is sent to the node with: the client's
/// headers, with the content type set to `text/html` in place of any the
/// client gave.
pub open spec fn page_headers(headers: Seq<(Seq<char>, Seq<u8>)>) -> Seq<(Seq<char>, Seq<u8>)> {
    without_header(headers, content_type_name()).push((content_type_name(), text_html()))
}

/// The headers to fetch the node's page with, given the client's headers
/// as (lower-case name, value bytes) pairs in order.
pub fn page_request_headers(headers: Vec<(String, Vec<u8>)>) -> (res: Vec<(String, Vec<u8>)>)
    ensures
        res.deep_view() == page_headers(headers.deep_view()),
{
    let ghost original = headers.deep_view();
    let mut rest = headers;
    let mut kept: Vec<(String, Vec<u8>)> = Vec::new();
    let content_type = String::from_str("content-type");
    while rest.len() > 0
        invariant
            content_type@ == content_type_name(),
            rest.deep_view().len() <= original.len(),
            rest.deep_view() =~= original.skip(original.len() - rest.deep_view().len()),
            kept.deep_view() == without_header(original.take(original.len() - rest.deep_view().len()), content_type_name()),
        decreases rest.len(),
    {
        let ghost k = original.len() - rest.deep_view().len();
        let ghost before = rest.deep_view();
        let header = rest.remove(0);
        assert(header.deep_view() == before[0]);
        assert(rest.deep_view() =~= before.drop_first());
        assert(original.take(k + 1).drop_last() =~= original.take(k));
        assert(original.take(k + 1).last() == original[k]);
        assert(original[k] == before[0]);
        if header.0 != content_type {
            kept.push(header);
            assert(kept.deep_view() =~= without_header(original.take(k), content_type_name()).push(original[k]));
        }
    }
    assert(original.take(original.len() as int) =~= original);
    let html: Vec<u8> = vec![116u8, 101u8, 120u8, 116u8, 47u8, 104u8, 116u8, 109u8, 108u8];
    assert(html.deep_view() =~= text_html());
    let ghost before_push = kept.deep_view();
    kept.push((content_type, html));
    assert(kept.deep_view() =~= before_push.push((content_type_name(), text_html())));
    kept
}

/// The JSON-RPC methods that are relayed to the node.
pub open spec fn is_relayed(method: Seq<char>) -> bool {
    method == "status"@ || method == "broadcast_tx_commit"@
}

/// Whether requests for `method` are relayed to the node.
pub fn relays_method(method: &String) -> (relayed: bool)
    ensures
        relayed == is_relayed(method@),
        relayed <==> (method@ == "status"@ || method@ == "broadcast_tx_commit"@),
{
    let status = String::from_str("status");
    let broadcast = String::from_str("broadcast_tx_commit");
    *method == status || *method == broadcast
}

/// The URL that the node's status is fetched from.
pub open spec fn status_url_of(node_rpc: Seq<char>) -> Seq<char> {
    node_rpc + "/status"@
}

/// The URL of the node's `/status` endpoint.
pub fn status_url(node_rpc: &str) -> (url: String)
    ensures
        url@ == status_url_of(node_rpc@),
{
    let mut url = String::from_str(node_rpc);
    url.append("/status");
    url
}

/// The `Host` header value for a node endpoint: `host:port`.
pub open spec fn host_header_value(host: Seq<char>, port: u16) -> Seq<char> {
    host + ":"@ + decimal_digits(port as nat)
}

/// The headers a relayed request carries, in the order they are set.
pub open spec fn relay_headers(body_len: nat, host: Seq<char>, port: u16) -> Seq<(Seq<char>, Seq<char>)> {
    seq![
        ("Content-Type"@, "application/json"@),
        ("Content-Length"@, decimal_digits(body_len)),
        ("Accept"@, "*/*"@),
        ("Host"@, host_header_value(host, port)),
    ]
}

/// A request to send on to the node.
#[derive(Debug)]
pub struct RelayPlan {
    /// Where to post it.
    pub url: String,
    /// Header names and values, in order.
    pub headers: Vec<(String, String)>,
    /// The body, as the client sent it.
    pub body: Vec<u8>,
    /// The id of the client's request, for an error reply should the
    /// request fail to be built.
    pub id: serde_json::Value,
}

/// What a relay plan says.
pub struct RelayView {
    pub url: Seq<char>,
    pub headers: Seq<(Seq<char>, Seq<char>)>,
    pub body: Seq<u8>,
    pub id: serde_json::Value,
}

impl View for RelayPlan {
    type V = RelayView;

    open spec fn view(&self) -> RelayView {
        RelayView { url: self.url@, headers: self.headers.deep_view(), body: self.body@, id: self.id }
    }
}

/// The relay of a request with id `id` and body `body` to the node at
/// `node_rpc`, whose host and port are `host` and `port`.
pub open spec fn relay_of(node_rpc: Seq<char>, host: Seq<char>, port: u16, body: Seq<u8>, id: serde_json::Value) -> RelayView {
    RelayView { url: node_rpc, headers: relay_headers(body.len(), host, port), body, id }
}

/// The relay of a request to the node at `endpoint`, reached by the URL
/// `node_rpc`.
pub fn relay_to(node_rpc: &str, endpoint: &NodeEndpoint, body: Vec<u8>, id: serde_json::Value) -> (plan: RelayPlan)
    ensures
        plan@ == relay_of(node_rpc@, endpoint.host@, endpoint.port, body@, id),
{
    let mut headers: Vec<(String, String)> = Vec::new();
    headers.push((String::from_str("Content-Type"), String::from_str("application/json")));
    headers.push((String::from_str("Content-Length"), decimal_text(body.len() as u64)));
    headers.push((String::from_str("Accept"), String::from_str("*/*")));
    let mut host = String::from_str(endpoint.host.as_str());
    host.append(":");
    let port = decimal_text(endpoint.port as u64);
    host.append(port.as_str());
    headers.push((String::from_str("Host"), host));
    let plan = RelayPlan { url: String::from_str(node_rpc), headers, body, id };
    assert(plan@.headers =~= relay_headers(body@.len(), endpoint.host@, endpoint.port));
    plan
}

/// How a JSON-RPC body is answered.
#[derive(Debug)]
pub enum RpcOutcome {
    /// Send the request on to the node, and hand back its reply as is.
    Relay(RelayPlan),
    /// Answer with this response.
    Reply(JsonRpcResponse),
    /// The node's URL names no endpoint; the request cannot be relayed.
    BadNodeUrl(NodeUrlError),
}

/// What an outcome says.
pub enum OutcomeView {
    Relay(RelayView),
    Reply(ResponseView),
    BadNodeUrl(NodeUrlError),
}

impl View for RpcOutcome {
    type V = OutcomeView;

    open spec fn view(&self) -> OutcomeView {
        match self {
            RpcOutcome::Relay(plan) => OutcomeView::Relay(plan@),
            RpcOutcome::Reply(response) => OutcomeView::Reply(response@),
            RpcOutcome::BadNodeUrl(err) => OutcomeView::BadNodeUrl(*err),
        }
    }
}

/// How a body is answered: `request` is what the body reads as (`None`
/// when it is no JSON-RPC request), `node_rpc` the node's URL and
/// `authority` what the URL parser finds in it.
pub open spec fn rpc_outcome(
    request: Option<RequestView>,
    node_rpc: Seq<char>,
    authority: Option<(Option<Seq<char>>, Option<u16>)>,
    body: Seq<u8>,
) -> OutcomeView {
    match request {
        None => OutcomeView::Reply(parse_error_response()),
        Some(req) => if is_relayed(req.method) {
            match endpoint_of(authority) {
                Ok((host, port)) => OutcomeView::Relay(relay_of(node_rpc, host, port, body, req.id)),
                Err(err) => OutcomeView::BadNodeUrl(err),
            }
        } else {
            OutcomeView::Reply(method_not_found_response(req.id, req.method))
        },
    }
}

/// The spec view of an optional request.
pub open spec fn request_view(request: Option<JsonRpcRequest>) -> Option<RequestView> {
    match request {
        Some(r) => Some(r@),
        None => None,
    }
}

/// How a body is answered, given what the URL parser found in the node's
/// URL (`authority`).
pub fn answer_rpc_with(
    request: Option<JsonRpcRequest>,
    node_rpc: &str,
    authority: Option<(Option<String>, Option<u16>)>,
    body: Vec<u8>,
) -> (outcome: RpcOutcome)
    ensures
        outcome@ == rpc_outcome(request_view(request), node_rpc@, authority.deep_view(), body@),
{
    match request {
        None => RpcOutcome::Reply(JsonRpcResponse::parse_error()),
        Some(req) => {
            if relays_method(&req.method) {
                match endpoint_from_authority(authority) {
                    Ok(endpoint) => RpcOutcome::Relay(relay_to(node_rpc, &endpoint, body, req.id)),
                    Err(err) => RpcOutcome::BadNodeUrl(err),
                }
            } else {
                RpcOutcome::Reply(JsonRpcResponse::method_not_found(req.id, req.method))
            }
        },
    }
}

/// How a body is answered: `request` is what the body reads as, `None`
/// when it is no JSON-RPC request, and `node_rpc` is the node's URL, which
/// is parsed only when the request is to be relayed.
pub fn answer_rpc(request: Option<JsonRpcRequest>, node_rpc: &str, body: Vec<u8>) -> (outcome: RpcOutcome)
    ensures
        outcome@ == rpc_outcome(request_view(request), node_rpc@, url_authority(node_rpc@), body@),
{
    let needs_node = match &request {
        Some(req) => relays_method(&req.method),
        None => false,
    };
    let authority = if needs_node {
        parse_url_authority(node_rpc)
    } else {
        None
    };
    answer_rpc_with(request, node_rpc, authority, body)
}

/// A relayed request reaches the node's URL exactly as the client sent
/// it: the same body, a `Content-Length` that reads back as its length, and
/// the request's id kept for the reply.
pub proof fn lemma_relay_forwards_body_unchanged(
    request: RequestView,
    node_rpc: Seq<char>,
    authority: Option<(Option<Seq<char>>, Option<u16>)>,
    body: Seq<u8>,
)
    requires
        is_relayed(request.method),
        endpoint_of(authority) is Ok,
    ensures
        rpc_outcome(Some(request), node_rpc, authority, body) matches OutcomeView::Relay(plan) && {
            &&& plan.url == node_rpc
            &&& plan.body == body
            &&& plan.id == request.id
            &&& plan.headers[1].0 == "Content-Length"@
            &&& decimal_value(plan.headers[1].1) == body.len()
        },
{
    lemma_decimal_digits_denote(body.len());
}

/// Only requests for the listed methods are ever relayed.
pub proof fn lemma_only_listed_methods_are_relayed(
    request: Option<RequestView>,
    node_rpc: Seq<char>,
    authority: Option<(Option<Seq<char>>, Option<u16>)>,
    body: Seq<u8>,
)
    ensures
        rpc_outcome(request, node_rpc, authority, body) is Relay ==> (request matches Some(r) && is_relayed(r.method)),
{
}

/// Every request that is not relayed, and is not stopped by a bad node URL,
/// is refused with a JSON-RPC error sent as HTTP 400; the refusal names
/// the request's id when the body was a request, and no id when it was not.
pub proof fn lemma_refusals_echo_the_id(
    request: Option<RequestView>,
    node_rpc: Seq<char>,
    authority: Option<(Option<Seq<char>>, Option<u16>)>,
    body: Seq<u8>,
)
    ensures
        rpc_outcome(request, node_rpc, authority, body) matches OutcomeView::Reply(response) ==> {
            &&& response.error is Some
            &&& http_status_of(response) == HTTP_BAD_REQUEST
            &&& match request {
                Some(r) => response.id == Some(r.id),
                None => response.id is None,
            }
        },
{
}

/// A request goes to the node's page exactly when it is a GET or its body
/// is empty; any other request, whatever its body's length, is read as
/// JSON-RPC.
pub proof fn lemma_node_page_exactly_for_get_or_empty(is_get: bool, body_len: nat)
    ensures
        serves_node_page(is_get, body_len) <==> (is_get || body_len == 0),
        !is_get && body_len > 0 ==> !serves_node_page(is_get, body_len),
{
}

/// The relayed methods are exactly `status` and `broadcast_tx_commit`:
/// every other name is refused.
pub proof fn lemma_relayed_methods_are_status_and_broadcast_commit(method: Seq<char>)
    ensures
        is_relayed(method) <==> (method == "status"@ || method == "broadcast_tx_commit"@),
{
}

/// The predicate that keeps headers not named `name`.
pub open spec fn named_other_than(name: Seq<char>) -> spec_fn((Seq<char>, Seq<u8>)) -> bool {
    |header: (Seq<char>, Seq<u8>)| header.0 != name
}

/// Dropping the headers named `name` keeps every other header, in order,
/// and nothing else: it is the filter of the headers by name.
pub proof fn lemma_without_header_keeps_the_others(headers: Seq<(Seq<char>, Seq<u8>)>, name: Seq<char>)
    ensures
        without_header(headers, name) == headers.filter(named_other_than(name)),
        forall|i: int| 0 <= i < without_header(headers, name).len()
            ==> (#[trigger] without_header(headers, name)[i]).0 != name
                && headers.contains(without_header(headers, name)[i]),
        forall|i: int| 0 <= i < headers.len() && (#[trigger] headers[i]).0 != name
            ==> without_header(headers, name).contains(headers[i]),
    decreases headers.len(),
{
    reveal(Seq::filter);
    if headers.len() > 0 {
        lemma_without_header_keeps_the_others(headers.drop_last(), name);
    }
    assert(without_header(headers, name) == headers.filter(named_other_than(name)));
    let kept = headers.filter(named_other_than(name));
    assert forall|i: int| 0 <= i < kept.len() implies (#[trigger] kept[i]).0 != name && headers.contains(kept[i]) by {
        headers.lemma_filter_pred(named_other_than(name), i);
        assert(kept.contains(kept[i]));
        headers.lemma_filter_contains_rev(named_other_than(name), kept[i]);
    }
    assert forall|i: int| 0 <= i < headers.len() && (#[trigger] headers[i]).0 != name implies kept.contains(headers[i]) by {
        headers.lemma_filter_contains(named_other_than(name), i);
    }
}

/// A page request carries every client header not named `content-type`,
/// in the client's order, then one `content-type` of `text/html`, and no
/// other `content-type`.
pub proof fn lemma_page_headers_replace_only_the_content_type(headers: Seq<(Seq<char>, Seq<u8>)>)
    ensures
        page_headers(headers).len() >= 1,
        page_headers(headers).drop_last() == headers.filter(named_other_than("content-type"@)),
        page_headers(headers).last().0 == "content-type"@,
        page_headers(headers).last().1.len() == 9,
        forall|i: int| 0 <= i < 9 ==> (#[trigger] page_headers(headers).last().1[i]) as char == "text/html"@[i],
        forall|i: int| 0 <= i < page_headers(headers).len() - 1 ==> (#[trigger] page_headers(headers)[i]).0 != "content-type"@,
        forall|i: int| 0 <= i < headers.len() && (#[trigger] headers[i]).0 != "content-type"@
            ==> page_headers(headers).contains(headers[i]),
{
    reveal_strlit("text/html");
    lemma_without_header_keeps_the_others(headers, "content-type"@);
    let page = page_headers(headers);
    let kept = without_header(headers, "content-type"@);
    assert(page.drop_last() =~= kept);
    assert forall|i: int| 0 <= i < page.len() - 1 implies (#[trigger] page[i]).0 != "content-type"@ by {
        assert(page[i] == kept[i]);
    }
    assert forall|i: int| 0 <= i < headers.len() && (#[trigger] headers[i]).0 != "content-type"@ implies page.contains(headers[i]) by {
        assert(kept.contains(headers[i]));
        let j = choose|j: int| 0 <= j < kept.len() && kept[j] == headers[i];
        assert(page[j] == kept[j]);
    }
}

/// The status URL is the node's URL followed by `/status`.
pub proof fn lemma_status_url_appends_status(node_rpc: Seq<char>)
    ensures
        status_url_of(node_rpc).len() == node_rpc.len() + 7,
        status_url_of(node_rpc).subrange(0, node_rpc.len() as int) == node_rpc,
        status_url_of(node_rpc).subrange(node_rpc.len() as int, node_rpc.len() as int + 7) == "/status"@,
{
    reveal_strlit("/status");
    let u = status_url_of(node_rpc);
    assert(u.subrange(0, node_rpc.len() as int) =~= node_rpc);
    assert(u.subrange(node_rpc.len() as int, node_rpc.len() as int + 7) =~= "/status"@);
}

/// A relayed request carries four headers, in order: `Content-Type:
/// application/json`, a `Content-Length` whose digits read back as the
/// body's length, `Accept: */*`, and a `Host` that is the node's host, a
/// colon, and digits that read back as the node's port.
pub proof fn lemma_relay_headers_spelled_out(body_len: nat, host: Seq<char>, port: u16)
    ensures
        relay_headers(body_len, host, port).len() == 4,
        relay_headers(body_len, host, port)[0] == ("Content-Type"@, "application/json"@),
        relay_headers(body_len, host, port)[1].0 == "Content-Length"@,
        decimal_value(relay_headers(body_len, host, port)[1].1) == body_len,
        forall|i: int| 0 <= i < relay_headers(body_len, host, port)[1].1.len()
            ==> is_digit(#[trigger] relay_headers(body_len, host, port)[1].1[i]),
        relay_headers(body_len, host, port)[2] == ("Accept"@, "*/*"@),
        relay_headers(body_len, host, port)[3].0 == "Host"@,
        relay_headers(body_len, host, port)[3].1.subrange(0, host.len() as int) == host,
        relay_headers(body_len, host, port)[3].1[host.len() as int] == ':',
        decimal_value(relay_headers(body_len, host, port)[3].1.subrange(host.len() as int + 1, relay_headers(body_len, host, port)[3].1.len() as int)) == port,
{
    reveal_strlit(":");
    lemma_decimal_digits_denote(body_len);
    lemma_decimal_digits_denote(port as nat);
    let value = relay_headers(body_len, host, port)[3].1;
    assert(value.subrange(0, host.len() as int) =~= host);
    assert(value.subrange(host.len() as int + 1, value.len() as int) =~= decimal_digits(port as nat));
}

/// How every body is answered, spelled out: a body that is no request gets
/// the parse error; a request for any method other than `status` and
/// `broadcast_tx_commit` gets `Method <name> not found` with its id,
/// whatever its parameters, the node's URL and the body; a request for one
/// of those two is relayed to the node's URL with the body unchanged when
/// the URL names a host and a port, and stopped only for a URL that does
/// not.
pub proof fn lemma_rpc_outcome_spelled_out(
    request: Option<RequestView>,
    node_rpc: Seq<char>,
    authority: Option<(Option<Seq<char>>, Option<u16>)>,
    body: Seq<u8>,
)
    ensures
        match request {
            None => rpc_outcome(request, node_rpc, authority, body) == OutcomeView::Reply(ResponseView {
                id: None,
                jsonrpc: "2.0"@,
                error: Some(ErrorView { code: -32700i64, message: "Parse error"@, data: None }),
                result: None,
            }),
            Some(r) => {
                &&& !(r.method == "status"@ || r.method == "broadcast_tx_commit"@)
                    ==> rpc_outcome(request, node_rpc, authority, body) == OutcomeView::Reply(ResponseView {
                        id: Some(r.id),
                        jsonrpc: "2.0"@,
                        error: Some(ErrorView {
                            code: -32601i64,
                            message: "Method "@ + r.method + " not found"@,
                            data: None,
                        }),
                        result: None,
                    })
                &&& (r.method == "status"@ || r.method == "broadcast_tx_commit"@) ==> (
                    authority matches Some((Some(host), Some(port)))
                    ==> rpc_outcome(request, node_rpc, authority, body) == OutcomeView::Relay(RelayView {
                        url: node_rpc,
                        headers: relay_headers(body.len(), host, port),
                        body,
                        id: r.id,
                    }))
            },
        },
        rpc_outcome(request, node_rpc, authority, body) is BadNodeUrl ==> (request is Some
            && (request->0.method == "status"@ || request->0.method == "broadcast_tx_commit"@)
            && !(authority matches Some((Some(_), Some(_))))),
{
}

/// Every outcome says what its parts hold: a relay its URL text, headers
/// (as text pairs, in order), body bytes and id; a reply its response; a
/// stopped request its reason. An absent request reads as none.
pub proof fn lemma_outcome_views_keep_every_part(outcome: RpcOutcome, request: Option<JsonRpcRequest>)
    ensures
        outcome matches RpcOutcome::Relay(plan) ==> outcome@ == OutcomeView::Relay(RelayView {
            url: plan.url@,
            headers: plan.headers@.map_values(|h: (String, String)| (h.0@, h.1@)),
            body: plan.body@,
            id: plan.id,
        }),
        outcome matches RpcOutcome::Reply(response) ==> outcome@ == OutcomeView::Reply(response@),
        outcome matches RpcOutcome::BadNodeUrl(err) ==> outcome@ == OutcomeView::BadNodeUrl(err),
        request is None ==> request_view(request) is None,
        request matches Some(r) ==> request_view(request) == Some(r@),
{
    if let RpcOutcome::Relay(plan) = outcome {
        assert(plan.headers.deep_view() =~= plan.headers@.map_values(|h: (String, String)| (h.0@, h.1@)));
    }
}

} // verus!
