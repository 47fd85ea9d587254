//! The database service: storage with secondary indexes, the replicated operations on it, and the
//! requests it answers.

pub mod consistency;
pub mod log;
pub mod log_codec;
pub mod rows;
pub mod server;
pub mod storage;
pub mod tickets;
pub mod user_consistency;
pub mod users;
