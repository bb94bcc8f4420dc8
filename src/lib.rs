//! Runtime configuration of a block-chain address indexer: per-network
//! defaults, derivation of the resolved configuration from the merged raw
//! settings, and access to the credential used against the node's RPC.
pub mod cache_size;
pub mod config;
pub mod cookie;
pub mod errors;
pub mod network;
pub mod path;
