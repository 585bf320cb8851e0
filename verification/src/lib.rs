//! Synchronisation bridge between a UI thread and a background worker.
//!
//! The UI thread and the worker share one [`app::App`] value and talk through two
//! unbounded instruction channels. Everything the bridge decides is a verified
//! function of plain values: what the pull phase records and enqueues, when
//! the push phase rebuilds the feed, what one step of the worker loop does
//! with whatever its channels handed it.

pub mod app;
pub mod backend;
pub mod channel;
pub mod datetime;
pub mod facade;
pub mod instruction;
pub mod nostr;
pub mod notedata;
pub mod pages;
pub mod text;
pub mod worker;
