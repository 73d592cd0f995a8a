//! A filesystem-watching engine: it registers paths with an
//! observation backend, drains the backend's raw notifications, normalizes
//! them into a closed domain event taxonomy, and hands the resulting events to
//! a consumer through an output queue.
//!
//! This crate holds the verified core: the taxonomy and the normalization
//! mapping, the categorized error mapping, the per-path decisions of watch and
//! unwatch, the backend selection with its polling fallback, the dispatch-step
//! logic, and the lifecycle state machine of the background dispatch thread.
//! The surrounding process plumbing (the OS backend itself, the channels and
//! the thread) drives these functions and performs what they decide.

pub mod errors;
pub mod events;
pub mod notification;
pub mod watcher;
