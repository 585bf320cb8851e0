//! The messages that travel between the UI thread and the worker.

use vstd::prelude::*;
use crate::pages::{AppPage, MainPage};

verus! {

/// An instruction from the UI thread to the worker.
#[derive(Clone, Copy, Debug, PartialEq, Eq, Structural)]
pub enum ToAppInstruction {
    /// Stop the worker loop.
    Quit,
    /// The user moved to another page; only the selectors that changed are present.
    PageChange(Option<AppPage>, Option<MainPage>),
    /// Ask the backend to recompute the feed.
    RequestRecompute,
}

/// An instruction from the worker to the UI thread.
#[derive(Clone, Copy, Debug, PartialEq, Eq, Structural)]
pub enum ToUiInstruction {
    /// Show these pages; an absent selector is left as it is.
    RequestPage(Option<AppPage>, Option<MainPage>),
}

/// What a non-blocking receive found on a channel.
#[derive(Debug, PartialEq, Eq, Structural)]
pub enum Received<T> {
    /// The oldest queued message.
    Message(T),
    /// Nothing is queued, but a sender is still alive.
    Empty,
    /// Nothing is queued and every sender is gone.
    Disconnected,
}

} // verus!
