//! The decisions of a standalone prover: how it lays out its thread pools, which work it
//! takes up and which it drops, how it solves the coinbase puzzle, and how its clients answer a
//! pool, a beacon or an operator.
//!
//! Sockets, timers and threads belong to the program around this library. It reports what
//! happened and carries out what the library decides.

pub mod account;
pub mod client;
pub mod client_direct;
pub mod codec;
pub mod fake_server;
pub mod link;
pub mod node;
pub mod options;
pub mod prover;
pub mod puzzle;
pub mod rates;
pub mod text;
pub mod vanity;

pub use fake_server::ProverMessage;
pub use options::{start_mine, Opt};
