//! Session lifecycle and concurrency core of a remote command-execution service.
//!
//! The library holds the registry of live remote-shell sessions, the decisions
//! taken while connecting and while running a command, and the fan-out of
//! execution output to observers. Network and storage work is done by the
//! caller, which hands the results back as plain values.

pub mod text;
pub mod error;
pub mod config;
pub mod models;
pub mod ids;
pub mod registry;
pub mod connector;
pub mod executor;
pub mod manager;
pub mod auth;
pub mod servers;
pub mod logs;
pub mod messages;
pub mod broker;
