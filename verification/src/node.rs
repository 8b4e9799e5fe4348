//! The Tendermint node that requests are relayed to: its URL must name a
//! host and a port, or a scheme whose port is known.

use vstd::prelude::*;

verus! {

/// What parsing the URL text `url` as an absolute URL yields: `None` when
/// it does not parse, else its host as text and its port, where the URL
/// names one or its scheme has a known default. What the URL standard
/// accepts takes pages to state; this names it.
pub uninterp spec fn url_authority(url: Seq<char>) -> Option<(Option<Seq<char>>, Option<u16>)>;

/// Calls `reqwest::Url::parse` (the `url` crate's `Url::parse`) on `url`,
/// and of the parsed URL `host` (written out by its `Display`) and
/// `port_or_known_default`. The contract claims only that the result is
/// the one `url_authority` names for the text, so that the same text gives
/// the same answer.
#[verifier::external_body]
pub(crate) fn parse_url_authority(url: &str) -> (res: Option<(Option<String>, Option<u16>)>)
    ensures
        res.deep_view() == url_authority(url@),
{
    match reqwest::Url::parse(url) {
        Ok(parsed) => {
            let host = match parsed.host() {
                Some(h) => Some(h.to_string()),
                None => None,
            };
            Some((host, parsed.port_or_known_default()))
        },
        Err(_) => None,
    }
}

/// Why a node URL cannot be used.
#[derive(Clone, Copy, Debug, PartialEq, Eq, Structural)]
pub enum NodeUrlError {
    /// The text is not an absolute URL.
    Unparsable,
    /// The URL names no host.
    MissingHost,
    /// The URL names no port, and its scheme has no known default port.
    MissingPort,
}

/// The host and port of the node.
#[derive(Clone, Debug)]
pub struct NodeEndpoint {
    pub host: String,
    pub port: u16,
}

impl View for NodeEndpoint {
    type V = (Seq<char>, u16);

    open spec fn view(&self) -> (Seq<char>, u16) {
        (self.host@, self.port)
    }
}

/// The endpoint that a parsed URL names, or the first thing it lacks: a
/// parse, then a host, then a port.
pub open spec fn endpoint_of(authority: Option<(Option<Seq<char>>, Option<u16>)>) -> Result<(Seq<char>, u16), NodeUrlError> {
    match authority {
        None => Err(NodeUrlError::Unparsable),
        Some((None, _)) => Err(NodeUrlError::MissingHost),
        Some((Some(_), None)) => Err(NodeUrlError::MissingPort),
        Some((Some(host), Some(port))) => Ok((host, port)),
    }
}

/// The spec view of an endpoint result.
pub open spec fn endpoint_view(res: Result<NodeEndpoint, NodeUrlError>) -> Result<(Seq<char>, u16), NodeUrlError> {
    match res {
        Ok(e) => Ok(e@),
        Err(err) => Err(err),
    }
}

/// The endpoint named by what the URL parser found in a node URL.
pub fn endpoint_from_authority(authority: Option<(Option<String>, Option<u16>)>) -> (res: Result<NodeEndpoint, NodeUrlError>)
    ensures
        endpoint_view(res) == endpoint_of(authority.deep_view()),
{
    match authority {
        None => Err(NodeUrlError::Unparsable),
        Some((None, _)) => Err(NodeUrlError::MissingHost),
        Some((Some(_), None)) => Err(NodeUrlError::MissingPort),
        Some((Some(host), Some(port))) => Ok(NodeEndpoint { host, port }),
    }
}

/// The node endpoint that the URL text `url` names, or why it names none.
pub fn node_endpoint(url: &str) -> (res: Result<NodeEndpoint, NodeUrlError>)
    ensures
        endpoint_view(res) == endpoint_of(url_authority(url@)),
{
    let authority = parse_url_authority(url);
    endpoint_from_authority(authority)
}

/// Whatever host and port the parser finds, the endpoint is exactly that
/// host and port; a URL that does not parse, that names no host, or that
/// names a host but no port (given or known by its scheme) has no endpoint,
/// for the reason named.
pub proof fn lemma_endpoint_is_what_the_parser_found(host: Seq<char>, port: u16, maybe_port: Option<u16>)
    ensures
        endpoint_of(Some((Some(host), Some(port)))) == Ok::<(Seq<char>, u16), NodeUrlError>((host, port)),
        endpoint_of(None) == Err::<(Seq<char>, u16), NodeUrlError>(NodeUrlError::Unparsable),
        endpoint_of(Some((None, maybe_port))) == Err::<(Seq<char>, u16), NodeUrlError>(NodeUrlError::MissingHost),
        endpoint_of(Some((Some(host), None))) == Err::<(Seq<char>, u16), NodeUrlError>(NodeUrlError::MissingPort),
{
}

/// An endpoint result, read back by its view, is `Ok` exactly when the
/// result is, with the same host text and port.
pub proof fn lemma_endpoint_view_keeps_host_and_port(res: Result<NodeEndpoint, NodeUrlError>)
    ensures
        endpoint_view(res) is Ok <==> res is Ok,
        res matches Ok(e) ==> endpoint_view(res) == Ok::<(Seq<char>, u16), NodeUrlError>((e.host@, e.port)),
        res matches Err(err) ==> endpoint_view(res) == Err::<(Seq<char>, u16), NodeUrlError>(err),
{
}

} // verus!
