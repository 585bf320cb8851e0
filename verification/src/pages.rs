//! Navigation selectors of the UI and the backend effects bound to them.

use vstd::prelude::*;

verus! {

/// The coarse navigation selector: which top-level view the window shows.
#[derive(Clone, Copy, Debug, PartialEq, Eq, Structural)]
pub enum AppPage {
    Welcome,
    Login,
    Main,
}

/// The fine-grained navigation selector inside the main view.
#[derive(Clone, Copy, Debug, PartialEq, Eq, Structural)]
pub enum MainPage {
    Feed,
    People,
    Relays,
    Settings,
}

/// The feed a backend subscription follows. The flag of `Followed` asks for
/// replies too, the flag of `Inbox` for indirect mentions.
#[derive(Clone, Copy, Debug, PartialEq, Eq, Structural)]
pub enum FeedKind {
    Followed(bool),
    Inbox(bool),
}

/// The feed that showing an app page switches the backend to, if the page has
/// one bound to it. No app page has.
pub open spec fn app_page_feed(page: AppPage) -> Option<FeedKind> {
    None
}

/// The feed that showing a main page switches the backend to, if the page has
/// one bound to it: the feed page shows the direct inbox.
pub open spec fn main_page_feed(page: MainPage) -> Option<FeedKind> {
    match page {
        MainPage::Feed => Some(FeedKind::Inbox(false)),
        _ => None,
    }
}

} // verus!
