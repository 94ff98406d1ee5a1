//! A small desktop window: the decisions behind its message handling,
//! painting and geometry diagnostics, separated from the platform calls.
pub mod geometry;
pub mod paint;
pub mod timer;
pub mod dispatch;
pub mod message_loop;
