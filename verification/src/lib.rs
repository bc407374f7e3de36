//! Client-side surface of a durable-execution worker protocol.
//!
//! A worker process polls an orchestration service for units of work
//! (workflow activations and activity tasks), reports their outcomes, and
//! receives lifecycle signals.  This crate holds the verified core of that
//! surface: the protocol data model with its tagged-union entities, the
//! codec between the permissive wire shapes (every variant field optional)
//! and the strict in-process shapes (exactly one variant populated), the
//! wire time conversions, and the worker session state machine that tracks
//! outstanding task tokens.
//!
//! The network transport itself is an external collaborator: callers run
//! the transport, hand each wire-shaped response to the session, and send
//! what the session's completion operations produce.

pub mod activity_result;
pub mod activity_task;
pub mod codec;
pub mod common;
pub mod errors;
pub mod time;
pub mod worker;
pub mod workflow_activation;
pub mod workflow_commands;
pub mod workflow_completion;
