//! Chain-adapter core for a StarkNet data-streaming node.
//!
//! The crate normalizes raw chain-backend responses (blocks, transactions,
//! receipts, state diffs) into one canonical wire schema, enforces the
//! pending/confirmed consistency rules of that schema, classifies backend
//! errors for its callers, and models the lifecycle of the network server
//! that exposes the canonical data.
//!
//! The modules, leaves first:
//! - [`felt`]: the fixed-size field element codec;
//! - [`chain`]: block identifiers and backend block selectors;
//! - [`backend`]: the shapes of the JSON-RPC backend's responses;
//! - [`wire`]: the canonical wire schema that callers receive;
//! - [`transcode`]: the pure mapping from backend shapes to the wire schema;
//! - [`provider`]: error taxonomy and the consistency checks of a provider;
//! - [`server`]: the build / run / shutdown state machine of the server.

pub mod backend;
pub mod chain;
pub mod felt;
pub mod provider;
pub mod server;
pub mod transcode;
pub mod wire;
