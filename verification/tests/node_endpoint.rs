use cosmin::node::{endpoint_from_authority, node_endpoint, NodeUrlError};

#[test]
fn endpoint_of_named_port() {
    let endpoint = node_endpoint("http://happy-path:26657").unwrap();
    assert_eq!(endpoint.host, "happy-path");
    assert_eq!(endpoint.port, 26657);
}

#[test]
fn endpoint_uses_scheme_default_port() {
    let endpoint = node_endpoint("http://example.com/rpc").unwrap();
    assert_eq!(endpoint.host, "example.com");
    assert_eq!(endpoint.port, 80);
    let endpoint = node_endpoint("https://Example.COM").unwrap();
    assert_eq!(endpoint.host, "example.com");
    assert_eq!(endpoint.port, 443);
}

#[test]
fn endpoint_of_ip_hosts() {
    let endpoint = node_endpoint("http://127.0.0.1:26657").unwrap();
    assert_eq!(endpoint.host, "127.0.0.1");
    assert_eq!(endpoint.port, 26657);
    let endpoint = node_endpoint("http://[::1]:8080").unwrap();
    assert_eq!(endpoint.host, "[::1]");
    assert_eq!(endpoint.port, 8080);
}

#[test]
fn endpoint_errors() {
    assert_eq!(node_endpoint("not a url").unwrap_err(), NodeUrlError::Unparsable);
    assert_eq!(node_endpoint("").unwrap_err(), NodeUrlError::Unparsable);
    assert_eq!(node_endpoint("data:text/plain,Stuff").unwrap_err(), NodeUrlError::MissingHost);
    assert_eq!(node_endpoint("unix:/run/foo.socket").unwrap_err(), NodeUrlError::MissingHost);
    assert_eq!(node_endpoint("foo://example.com").unwrap_err(), NodeUrlError::MissingPort);
    assert_eq!(node_endpoint("foo://example.com:1456").unwrap().port, 1456);
}

#[test]
fn endpoint_from_given_authority() {
    assert_eq!(endpoint_from_authority(None).unwrap_err(), NodeUrlError::Unparsable);
    assert_eq!(endpoint_from_authority(Some((None, Some(1)))).unwrap_err(), NodeUrlError::MissingHost);
    assert_eq!(endpoint_from_authority(Some((None, None))).unwrap_err(), NodeUrlError::MissingHost);
    assert_eq!(
        endpoint_from_authority(Some((Some("h".to_string()), None))).unwrap_err(),
        NodeUrlError::MissingPort
    );
    let endpoint = endpoint_from_authority(Some((Some("h".to_string()), Some(5)))).unwrap();
    assert_eq!(endpoint.host, "h");
    assert_eq!(endpoint.port, 5);
}
