//! What the bridge asks of the backend, and a model of the one piece of
//! backend state those requests change.

use vstd::prelude::*;
use crate::pages::FeedKind;

verus! {

/// A command for the backend. The worker decides on commands; its caller
/// carries them out in the order given.
#[derive(Clone, Copy, Debug, PartialEq, Eq, Structural)]
pub enum BackendCommand {
    /// Follow this feed from now on.
    SwitchFeed(FeedKind),
    /// Recompute the current feed.
    SyncRecompute,
}

/// The feed the backend follows after `command`, when it followed `feed`.
pub open spec fn feed_after(feed: FeedKind, command: BackendCommand) -> FeedKind {
    match command {
        BackendCommand::SwitchFeed(kind) => kind,
        BackendCommand::SyncRecompute => feed,
    }
}

/// The feed the backend follows after `commands`, carried out first to last,
/// when it followed `feed`.
pub open spec fn feed_after_all(feed: FeedKind, commands: Seq<BackendCommand>) -> FeedKind
    decreases commands.len(),
{
    if commands.len() == 0 {
        feed
    } else {
        feed_after(feed_after_all(feed, commands.drop_last()), commands.last())
    }
}

} // verus!
