//! What the library promises as a whole: laws over what its functions are asked and what they give
//! back, stated of the functions themselves.

pub mod console;
pub mod database;
pub mod faults;
pub mod gateway;
pub mod locks;
pub mod log;
pub mod plain;
pub mod queries;
pub mod settings;
pub mod storage;
pub mod tickets;
pub mod users;
pub mod wire;
pub mod workflow;
