//! Client-side protocol for the Canary contract: a paid membership registry
//! and content-addressed blob storage on a versioned object ledger.
//!
//! The crate holds the decisions of the protocol as verified functions on
//! plain values: how a call's arguments are laid out, how a transaction is
//! assembled and funded, how a budget is derived from a dry run, and how the
//! untyped buffers of a simulated call are decoded.  Talking to a node and
//! signing are left to the caller, which feeds what it fetched back in.

pub mod canary;
pub mod client;
pub mod codec;
pub mod error;
pub mod keystore;
pub mod node;
pub mod query;
pub mod resolver;
pub mod text;
pub mod transaction;
pub mod types;
