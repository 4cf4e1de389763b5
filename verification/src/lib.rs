//! A terminal timer tracker: named, timestamped work intervals that can be
//! started, stopped, edited, deleted, and persisted across restarts.
//!
//! The verified core is the session model (the timer list with its
//! single-active-timer policy and fixed-step elapsed-time accumulation),
//! the modal screen state machine with its keyboard dispatch, and the
//! contract of the persistent store. Terminal setup and widget rendering
//! are unverified plumbing around this core.

pub mod app;
pub mod clock;
pub mod db;
pub mod errors;
pub mod rows;
pub mod strutil;
pub mod throbber;
pub mod timer;
