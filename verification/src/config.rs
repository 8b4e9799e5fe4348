//! The ingress configuration, and the defaults that fill in what a
//! configuration file leaves out.

use vstd::prelude::*;
use vstd::string::StringExecFns;

verus! {

/// The whole configuration.
#[derive(Clone, Debug)]
pub struct CosmosTxEndpointConfig {
    pub max_request_threads: usize,
    pub max_tx_batch_size: u64,
    pub request_timeout_secs: u64,
    pub node: NodeSection,
    pub rpc: RpcSection,
}

/// Where the Tendermint node is reached.
#[derive(Clone, Debug)]
pub struct NodeSection {
    /// The URL of the node's JSON-RPC endpoint.
    pub rpc: String,
}

/// Where the ingress itself listens.
#[derive(Clone, Debug)]
pub struct RpcSection {
    /// The socket address to listen on, as `host:port`.
    pub address: String,
}

/// The listening address used when the configuration names none.
pub open spec fn default_listen_address() -> Seq<char> {
    "127.0.0.1:26655"@
}

impl Default for NodeSection {
    fn default() -> (res: Self)
        ensures
            res.rpc@ == Seq::<char>::empty(),
    {
        NodeSection { rpc: String::new() }
    }
}

impl Default for RpcSection {
    fn default() -> (res: Self)
        ensures
            res.address@ == default_listen_address(),
    {
        RpcSection { address: String::from_str("127.0.0.1:26655") }
    }
}

impl Default for CosmosTxEndpointConfig {
    fn default() -> (res: Self)
        ensures
            res.max_request_threads == 4,
            res.max_tx_batch_size == 50,
            res.request_timeout_secs == 10,
            res.node.rpc@ == Seq::<char>::empty(),
            res.rpc.address@ == default_listen_address(),
    {
        CosmosTxEndpointConfig {
            max_request_threads: 4,
            max_tx_batch_size: 50,
            request_timeout_secs: 10,
            node: NodeSection::default(),
            rpc: RpcSection::default(),
        }
    }
}

} // verus!
