//! Notification ingestion: a trace parser for a desktop-bus monitor, a bounded
//! ID-addressed history of notifications, and the supervision decisions that
//! keep the monitor process running.

pub mod clock;
pub mod notification;
pub mod parser;
pub mod store;
pub mod supervisor;
pub mod text;
pub mod trace;
