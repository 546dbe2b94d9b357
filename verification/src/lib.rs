//! Process supervision and recovery engine for a desktop companion
//! application.
//!
//! The backend of the application keeps two external processes alive: a
//! conversational agent reached over line-delimited JSON on stdio, and a
//! local gateway (with a companion node host) reached over HTTP. This
//! library holds the decision logic of that supervision: PID record
//! bookkeeping, orphan reaping, health monitoring with restart after
//! repeated failure, the send/respawn/retry protocol of the agent, and
//! ownership-aware teardown. The surrounding binary performs the actual
//! I/O (signals, process spawning, file access, HTTP probes) and feeds
//! its observations into the step functions defined here.

pub mod agent;
pub mod config;
pub mod gateway;
pub mod monitor;
pub mod pid;
pub mod locks;
pub mod reaper;
pub mod records;
pub mod resolve;
pub mod token;
pub mod validate;
pub mod text;
