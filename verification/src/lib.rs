//! Validation-and-integration pipeline core for a peer-to-peer
//! append-only-chain / DHT runtime.
//!
//! Two pieces carry the correctness burden and are fully verified here:
//!
//! * a trigger-driven multi-stage pipeline scheduler: a coalescing wake-up
//!   channel, the fixed five-stage topology that wires the long-running
//!   queue consumers together, and a one-shot idempotent bootstrap that
//!   fires every stage's first trigger exactly once;
//! * a tiered dependency resolver that, for any fact an operation depends
//!   on, searches the local store tiers (vault, judged, pending) and an
//!   optional network fallback, and reports the confidence of what it
//!   found.
//!
//! The storage engine, network transport, cryptography and WASM-hosted
//! application logic are external collaborators; they appear only through
//! the narrow data they hand the core.

pub mod composite;
pub mod element;
pub mod entry;
pub mod header;
pub mod present;
pub mod primitives;
pub mod queue_consumer;
pub mod state;
pub mod sys_validate;
