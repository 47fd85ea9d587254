//! The console in the browser: its requests, its theme, and the decisions behind its page.

pub mod api;
pub mod theme;
pub mod ticket_list;
