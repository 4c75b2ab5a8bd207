//! Release orchestration engine for multi-package workspaces.
//!
//! The crate holds the decisions of a release: the order in which packages
//! are published, the phase state machine with its checkpoints, the publish
//! pipeline with retries and partial failure, the rollback plan, and the
//! state store. Every function carries a contract. Verus proves the
//! contracts; the few calls into outside code are marked where they stand.

pub mod text;
pub mod error;
pub mod graph;
pub mod version;
pub mod git;
pub mod state;
pub mod publish;
pub mod registry;
pub mod frame;
pub mod store;
pub mod rollback;
pub mod release;
pub mod chunk_handler;
