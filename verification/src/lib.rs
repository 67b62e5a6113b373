//! Protocol core of a single-instance screenshot annotation daemon.
//!
//! A short-lived command-line invocation controls one long-lived graphical
//! process over the session bus. This crate holds the rules of that
//! conversation and proves them:
//!
//! - [`ipc`]: the three requests and three responses, how they are written on
//!   the bus and read back, the server's per-call dispatch and the client's
//!   single exchange;
//! - [`daemon`]: how the daemon comes to own the well-known name, how it
//!   answers each request, and what it tells the application;
//! - [`singleton`]: why at most one daemon serves at a time;
//! - [`client`]: the client operations, step by step;
//! - [`cli`]: what one invocation of the program does;
//! - [`window`]: what the application does for each input;
//! - [`wire`] and [`text`]: message bodies and strings.
//!
//! The crate performs no input or output. Where work is to be done outside, a
//! function returns what is to be done; the caller does it and calls again
//! with what came of it.

pub mod cli;
pub mod client;
pub mod daemon;
pub mod ipc;
pub mod singleton;
pub mod text;
pub mod window;
pub mod wire;
