//! The custodian: replicated ticket locks, the Raft log behind them, and the ticket service.

pub mod db_client;
pub mod locks;
pub mod log_store;
pub mod metrics;
pub mod server;
pub mod snapshot;
pub mod ticket;
