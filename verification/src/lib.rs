//! A JSON-RPC ingress that sits in front of a Tendermint node: it answers
//! plain page requests by fetching the node's page, relays the JSON-RPC
//! methods it lets through, and refuses the rest with JSON-RPC errors.
//!
//! This crate holds the decisions; the server loop and the HTTP calls live
//! in the application that uses it.

use vstd::prelude::*;

pub mod config;
pub mod decimal;
pub mod jsonrpc;
pub mod node;
pub mod relay;
pub mod tx;

verus! {

} // verus!
