//! The verified core of a ticketing cluster: storage with secondary indexes, replicated ticket
//! locks, the Raft wire format, user administration, service discovery, the REST vocabulary, and
//! the decisions behind the console's forms.

pub mod admin;
pub mod bytes;
pub mod chaos;
pub mod cluster;
pub mod console;
pub mod custodian;
pub mod db;
pub mod discovery;
pub mod echo;
pub mod gateway;
pub mod honeypot;
pub mod ids;
pub mod laws;
pub mod loopback;
pub mod policy;
pub mod pqc;
pub mod raft;
pub mod record;
pub mod status;
pub mod store;
pub mod text;
pub mod time;
pub mod tls;
