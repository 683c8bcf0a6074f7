//! Session and streaming-orchestration core of a terminal assistant.
//!
//! The crate owns the conversational state (a role-tagged message log), the
//! token history driven by an opaque text-generation backend, the
//! token-by-token decode-loop state machine, the persistence rules for
//! session snapshots, and the safety gate that guards execution of generated
//! shell commands. The backend itself (tokenization, model evaluation,
//! sampling) is an external collaborator: callers perform those calls and
//! feed the results back into the state machines defined here.

pub mod chat;
pub mod controller;
pub mod decode;
pub mod gate;
pub mod listing;
pub mod modes;
pub mod session;
pub mod threads;
