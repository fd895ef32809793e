//! Verified core of a bidirectional pipe between a line-oriented text stream
//! and a persistent chat-protocol connection.
//!
//! The library holds the orchestration logic: the event taxonomy the workers
//! report through, the two-phase supervisor state machine (joining, then
//! relaying), the classification of inbound protocol messages, the per-line
//! relay decisions, and the construction of the target room list. The
//! connection itself, the input/output streams and the surrounding process
//! plumbing are unverified collaborators.

pub mod event;
pub mod reader;
pub mod relay;
pub mod supervisor;
pub mod targets;
