//! Verified core of a Gmail unread-mail watcher: configuration rules, the
//! Atom feed count extraction, the HTTP client pool, the cron-driven delay
//! computation and the decisions of the background event loop.

pub mod config;
pub mod gmail;
pub mod pool;
pub mod schedule;
pub mod backend;
