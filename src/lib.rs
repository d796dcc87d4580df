//! A JSON-RPC 2.0 front for a fixed catalog of conversational agents.
//!
//! The library validates and routes JSON-RPC envelopes, resolves agents from
//! the catalog, builds the wire requests of the two completion backends,
//! interprets their replies, and assembles the JSON-RPC responses. A second,
//! smaller part serves asset minting: the metadata to store, the choice of
//! content id, and the results of the mint call. Network transport and JSON
//! encoding are left to the caller.

pub mod models;
pub mod agents;
pub mod provider;
pub mod handlers;
pub mod minting;
