//! A peer-to-peer content-distribution session engine.
//!
//! The engine correlates every asynchronous network operation (a dial, a DHT
//! query, an outbound request) with the caller that started it, and resolves
//! each caller exactly once. The network itself stays outside: callers hand
//! the engine what the network answered and act on what the engine decides.
pub mod bencode;
pub mod cli;
pub mod error;
pub mod handshake;
pub mod laws;
pub mod rpc;
pub mod session;
pub mod table;
pub mod types;
