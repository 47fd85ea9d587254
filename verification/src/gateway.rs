//! The gateway: its settings, its REST vocabulary, and the errors it answers with.

pub mod error;
pub mod routes;
pub mod settings;
