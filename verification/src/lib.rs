//! Client-side core of an interactive ledger smart-contract invoker.
//!
//! The library covers the transaction lifecycle and the schema-driven
//! method-dispatch engine: canonical payload construction and signing,
//! nonce-aware transaction preparation, the confirmation-polling state
//! machine, and the normalization of heterogeneous view-call results.
//! Console interaction and the HTTP transport live outside the library
//! and hand it plain values.

pub mod builder;
pub mod dispatch;
pub mod errors;
pub mod schema;
pub mod wire;
pub mod poller;
pub mod signer;
pub mod text;
