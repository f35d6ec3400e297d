//! Host-monitoring agent core: per-endpoint session supervision.
//!
//! The agent keeps one session per enabled collector endpoint. Each session
//! connects with exponential backoff, streams telemetry through a single
//! writer, answers server commands, and reconnects when the stream is lost.
//! This crate holds the decisions of those loops as verified state machines
//! and functions; the asynchronous I/O that drives them lives outside it.
pub mod backoff;
pub mod cli;
pub mod config;
pub mod connector;
pub mod dispatch;
pub mod json;
pub mod loader;
pub mod producer;
pub mod session;
pub mod supervisor;
pub mod telemetry;
pub mod writer;
