//! Core of a permissioned funding ledger: a role hierarchy, a forward-only
//! project state machine, and a split immutable/mutable record store with a
//! lazy retention-renewal policy; beside it, the decision logic of the event
//! indexer that consumes the ledger's notification stream.

pub mod api;
pub mod config;
pub mod errors;
pub mod events;
pub mod host;
pub mod indexer;
pub mod invariants;
pub mod json;
pub mod lifecycle;
pub mod roles;
pub mod rpc;
pub mod storage;
pub mod types;
