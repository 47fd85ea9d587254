//! Raft: its plain values, the stored form of log entries, the wire protocol, and the two ends of
//! a call: the service that answers and the network that asks.

pub mod codec;
pub mod messages;
pub mod network;
pub mod service;
pub mod types;
pub mod wire;
