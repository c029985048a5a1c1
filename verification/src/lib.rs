//! Verified core of a Bitcoin light node: version encoding, RPC error
//! mapping, compact-filter storage layout, the watch-only address cache
//! and the errors of the chain and peer-to-peer layers.

pub mod text;
pub mod version;

pub mod rpc_error;
pub mod request;
pub mod control;
pub mod network;

pub mod filter_store;
pub mod network_filters;

pub mod table;
pub mod watch_only;

pub mod chain_error;
pub mod wire_error;
