//! A request/response bridge between a host and one long-lived worker
//! process that speaks line-delimited JSON over its standard streams.
//!
//! The crate holds the bridge's rules: how request ids are handed out, how a
//! request line is framed, how a line of worker output is decoded, and how a
//! decoded response finds the caller that waits for it. Process handles and
//! pipes stay with the embedding program, which reports what happened to them
//! and performs the writes this crate asks for.

pub mod ids;
pub mod json;
pub mod error;
pub mod wire;
pub mod channel;
pub mod pending;
pub mod sidecar;
pub mod laws;

pub use error::{CallError, SpawnError, WriteStage};
pub use ids::IdCounter;
pub use pending::{Delivery, PendingTable};
pub use sidecar::{Dispatch, IssuedCall, Launch, Routed, Sidecar};
pub use wire::Response;
