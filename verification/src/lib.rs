//! Protocol and orchestration core of a continuous-integration worker agent.
//!
//! The agent keeps an authenticated, signed connection to a remote
//! coordination service (the registry), receives CI run requests, executes
//! them as containerized tasks and streams the results back.  This crate
//! holds the verified core: the signed message framing, the reconnect
//! backoff policy, the authentication and registration state machines, the
//! local IPC framing, the task-directive parser, the image resolver and the
//! dispatch bookkeeping.  Transport, file system and subprocess work stay
//! outside, behind narrow trusted wrappers or in the surrounding binary.

pub mod query;
pub mod bytes;
pub mod crypto;
pub mod codec;
pub mod schema;
pub mod state;
pub mod docker;
pub mod config;
pub mod config_toml;
pub mod ipc;
pub mod auth;
pub mod backoff;
pub mod daemon;
pub mod cli;
