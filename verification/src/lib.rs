//! Verified core of the agent monitoring server: the in-memory registry of
//! agents and their latest metrics, the per-agent command queues, the
//! authentication rules (password hashing and token issuing), and the
//! decisions behind the HTTP routes. Network, database and clock access live
//! in the server crate around this library.

pub mod agents;
pub mod auth;
pub mod commands;
pub mod history;
pub mod state;
pub mod text;
