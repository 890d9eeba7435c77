//! A single-session command-execution agent: the conversation history, the
//! protocol that marks a command inside a model reply, the control loop's
//! state machine, and the framing of a prior-history blob.

pub mod agent;
pub mod blob;
pub mod extract;
pub mod message;
