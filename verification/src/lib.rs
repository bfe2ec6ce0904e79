//! Verified core of a small forward proxy: each TCP connection accepted on a
//! local port is tunnelled, byte for byte, through an upstream HTTP proxy to
//! one fixed target, using the HTTP CONNECT method with optional Basic
//! authentication.
//!
//! This crate holds the logic of that proxy — the configuration record, the
//! CONNECT request template and its wire text, the per-connection session
//! state machine, and the byte-relay model — each with a proved contract.
//! The sockets, the HTTP client machinery and the task runtime live outside,
//! feed these functions plain values and act on what they return.
pub mod config;
pub mod encode;
pub mod model;
pub mod request;
pub mod relay;
pub mod session;
