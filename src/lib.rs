//! Release watcher: decides which repository releases are new, how each asset
//! is delivered, and renders the texts that are sent or written out.
//!
//! Network, file and process work stays with the caller; everything here is
//! plain computation over values, verified against its contract.
pub mod download;
pub mod pipeline;
pub mod record;
pub mod release;
pub mod routing;
pub mod text;
