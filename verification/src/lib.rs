//! Indexing core for two on-chain registries: block-range planning for the
//! historical scan, the listener life cycle, event routing and the
//! idempotent construction of the rows of the relational read-model.

pub mod blocks;
pub mod clock;
pub mod encoding;
pub mod events;
pub mod listener;
pub mod records;
pub mod router;
pub mod router_path;
pub mod store;
pub mod writer;
