//! Runs a command, mirrors its output locally and relays it in batches to a
//! chat webhook. This crate holds the decisions of that pipeline: how lines are
//! routed, when a batch is flushed, how messages and payloads are built, and
//! which status and exit code a finished command gets.
pub mod text;
pub mod cli;
pub mod message;
pub mod webhook;
pub mod app;
pub mod error;
pub mod command;
pub mod invocation;
