//! Configuration, request construction and report rendering for a small
//! command-line weather client.
//!
//! The library decides everything the program does from plain values: which
//! environment files to try, whether diagnostics are shown, the request URL,
//! and every line that is printed. Reading the environment, loading files,
//! talking to the network and decoding JSON are left to the caller.

pub mod config;
pub mod report;
pub mod request;
pub mod text;
