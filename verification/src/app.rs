//! The state that the UI thread and the worker share.

use vstd::prelude::*;
use tokio::sync::mpsc::UnboundedSender;
use crate::backend::BackendCommand;
use crate::channel::send;
use crate::instruction::{ToAppInstruction, ToUiInstruction};
use crate::pages::{app_page_feed, main_page_feed, AppPage, FeedKind, MainPage};

verus! {

/// A reading of the backend's monotonic clock, in nanoseconds since the
/// instant the process took as its reference. Two readings are only ever
/// compared for equality.
#[derive(Clone, Copy, Debug, PartialEq, Eq, Structural)]
pub struct Timestamp {
    pub nanos: u64,
}

/// What [`App`] holds, as contracts speak of it.
pub struct AppView {
    /// The app page last read from the UI, if any was.
    pub app_page: Option<AppPage>,
    /// The main page last read from the UI, if any was.
    pub main_page: Option<MainPage>,
    /// The feed-recompute time for which the UI was last given the feed.
    pub last_feed_sync: Option<Timestamp>,
    /// The sending end of the channel from the UI to the worker.
    pub to_app: UnboundedSender<ToAppInstruction>,
    /// The sending end of the channel from the worker to the UI.
    pub to_ui: UnboundedSender<ToUiInstruction>,
}

/// The shared application state: the navigation selectors as last observed,
/// the feed-recompute time last shown, and the sending ends of both
/// instruction channels. Callers keep it behind a read-write lock.
pub struct App {
    app_page: Option<AppPage>,
    main_page: Option<MainPage>,
    last_feed_sync: Option<Timestamp>,
    to_app: UnboundedSender<ToAppInstruction>,
    to_ui: UnboundedSender<ToUiInstruction>,
}

impl View for App {
    type V = AppView;

    closed spec fn view(&self) -> AppView {
        AppView {
            app_page: self.app_page,
            main_page: self.main_page,
            last_feed_sync: self.last_feed_sync,
            to_app: self.to_app,
            to_ui: self.to_ui,
        }
    }
}

/// The state around two channel ends before anything was observed.
pub open spec fn initial_view(
    to_app: UnboundedSender<ToAppInstruction>,
    to_ui: UnboundedSender<ToUiInstruction>,
) -> AppView {
    AppView { app_page: None, main_page: None, last_feed_sync: None, to_app, to_ui }
}

/// The selector to report when the UI shows `shown` and `recorded` is what
/// was last observed: `shown` if the two differ, nothing otherwise.
pub open spec fn changed_page<P>(recorded: Option<P>, shown: P) -> Option<P> {
    if recorded == Some(shown) {
        None
    } else {
        Some(shown)
    }
}

/// The instruction that the pull phase owes the worker when the UI shows
/// `ui_app_page` and `ui_main_page`: one `PageChange` that carries exactly the
/// selectors that differ from the recorded ones, or nothing if neither does.
pub open spec fn page_change(
    recorded: AppView,
    ui_app_page: AppPage,
    ui_main_page: MainPage,
) -> Option<ToAppInstruction> {
    let new_app_page = changed_page(recorded.app_page, ui_app_page);
    let new_main_page = changed_page(recorded.main_page, ui_main_page);
    if new_app_page is Some || new_main_page is Some {
        Some(ToAppInstruction::PageChange(new_app_page, new_main_page))
    } else {
        None
    }
}

/// The state after the pull phase has read `ui_app_page` and `ui_main_page`:
/// both are recorded, and nothing else changes.
pub open spec fn after_pull(recorded: AppView, ui_app_page: AppPage, ui_main_page: MainPage) -> AppView {
    AppView { app_page: Some(ui_app_page), main_page: Some(ui_main_page), ..recorded }
}

/// Whether the UI's feed is stale once the backend reports `recomputed_at`
/// as the time of its last feed recompute. The check is for inequality: the
/// backend's clock is not asked to move forward.
pub open spec fn feed_is_stale(recorded: AppView, recomputed_at: Option<Timestamp>) -> bool {
    recorded.last_feed_sync != recomputed_at
}

/// The state after the push phase has seen `recomputed_at`: the time is
/// recorded, and nothing else changes.
pub open spec fn after_feed_sync(recorded: AppView, recomputed_at: Option<Timestamp>) -> AppView {
    AppView { last_feed_sync: recomputed_at, ..recorded }
}

/// The backend command that a feed bound to a page stands for.
pub open spec fn switch_to(feed: Option<FeedKind>) -> Option<BackendCommand> {
    match feed {
        Some(kind) => Some(BackendCommand::SwitchFeed(kind)),
        None => None,
    }
}

impl App {
    /// A fresh state around the sending ends of the two channels: nothing
    /// observed, nothing shown.
    pub fn new(
        to_app: UnboundedSender<ToAppInstruction>,
        to_ui: UnboundedSender<ToUiInstruction>,
    ) -> (app: App)
        ensures
            app@ == initial_view(to_app, to_ui),
    {
        App { app_page: None, main_page: None, last_feed_sync: None, to_app, to_ui }
    }

    /// The app page last read from the UI.
    pub fn app_page(&self) -> (page: Option<AppPage>)
        ensures
            page == self@.app_page,
    {
        self.app_page
    }

    /// The main page last read from the UI.
    pub fn main_page(&self) -> (page: Option<MainPage>)
        ensures
            page == self@.main_page,
    {
        self.main_page
    }

    /// The feed-recompute time for which the UI was last given the feed.
    pub fn last_feed_sync(&self) -> (at: Option<Timestamp>)
        ensures
            at == self@.last_feed_sync,
    {
        self.last_feed_sync
    }

    /// Hands an instruction to the worker's channel. It is queued, or, when
    /// the worker's end of the channel is gone, handed back as the error.
    pub fn send_to_app(&self, instruction: ToAppInstruction) -> (sent: Result<(), ToAppInstruction>)
        ensures
            sent matches Err(returned) ==> returned == instruction,
    {
        send(&self.to_app, instruction)
    }

    /// Hands an instruction to the UI's channel. It is queued, or, when the
    /// UI's end of the channel is gone, handed back as the error.
    pub fn send_to_ui(&self, instruction: ToUiInstruction) -> (sent: Result<(), ToUiInstruction>)
        ensures
            sent matches Err(returned) ==> returned == instruction,
    {
        send(&self.to_ui, instruction)
    }

    /// Records what the UI shows and returns the instruction owed to the
    /// worker: a `PageChange` with exactly the selectors that changed, or
    /// nothing if the UI shows what was recorded.
    pub fn observe_ui(&mut self, ui_app_page: AppPage, ui_main_page: MainPage) -> (change: Option<
        ToAppInstruction,
    >)
        ensures
            change == page_change(old(self)@, ui_app_page, ui_main_page),
            final(self)@ == after_pull(old(self)@, ui_app_page, ui_main_page),
    {
        let new_app_page = match self.app_page {
            Some(recorded) if recorded == ui_app_page => None,
            _ => Some(ui_app_page),
        };
        let new_main_page = match self.main_page {
            Some(recorded) if recorded == ui_main_page => None,
            _ => Some(ui_main_page),
        };
        self.app_page = Some(ui_app_page);
        self.main_page = Some(ui_main_page);
        if new_app_page.is_some() || new_main_page.is_some() {
            Some(ToAppInstruction::PageChange(new_app_page, new_main_page))
        } else {
            None
        }
    }

    /// Records the time of the backend's last feed recompute and says whether
    /// the UI's feed has to be rebuilt: exactly when the time differs from
    /// the one recorded.
    pub fn observe_feed_recompute(&mut self, recomputed_at: Option<Timestamp>) -> (stale: bool)
        ensures
            stale == feed_is_stale(old(self)@, recomputed_at),
            final(self)@ == after_feed_sync(old(self)@, recomputed_at),
    {
        let stale = match (self.last_feed_sync, recomputed_at) {
            (Some(shown), Some(now)) => shown.nanos != now.nanos,
            (None, None) => false,
            _ => true,
        };
        if stale {
            self.last_feed_sync = recomputed_at;
        }
        stale
    }

    /// The backend command bound to showing `page`, if there is one. The
    /// recorded state stays as it is.
    pub fn app_page_change(&mut self, page: AppPage) -> (command: Option<BackendCommand>)
        ensures
            command == switch_to(app_page_feed(page)),
            final(self)@ == old(self)@,
    {
        match page {
            _ => None,
        }
    }

    /// The backend command bound to showing `page`, if there is one: the feed
    /// page switches the backend to the direct inbox. The recorded state stays
    /// as it is.
    pub fn main_page_change(&mut self, page: MainPage) -> (command: Option<BackendCommand>)
        ensures
            command == switch_to(main_page_feed(page)),
            final(self)@ == old(self)@,
    {
        match page {
            MainPage::Feed => Some(BackendCommand::SwitchFeed(FeedKind::Inbox(false))),
            _ => None,
        }
    }
}

/// The push phase is idempotent: once a recompute time has been recorded,
/// seeing the same time again finds the feed fresh and changes nothing.
pub proof fn lemma_push_phase_is_idempotent(recorded: AppView, recomputed_at: Option<Timestamp>)
    ensures
        !feed_is_stale(after_feed_sync(recorded, recomputed_at), recomputed_at),
        after_feed_sync(after_feed_sync(recorded, recomputed_at), recomputed_at)
            == after_feed_sync(recorded, recomputed_at),
{
}

/// The feed is rebuilt exactly when the recompute time differs from the
/// recorded one, whichever of the two is later.
pub proof fn lemma_feed_is_stale_on_any_difference(recorded: AppView, recomputed_at: Option<Timestamp>)
    ensures
        feed_is_stale(recorded, recomputed_at) <==> recorded.last_feed_sync != recomputed_at,
        !feed_is_stale(recorded, recorded.last_feed_sync),
{
}

/// The pull phase detects a changed main page: when the UI shows the
/// recorded app page and another main page than the recorded one, the worker
/// is owed one `PageChange` that names the new main page and no app page,
/// and the new main page is recorded.
pub proof fn lemma_changed_main_page_is_reported(
    recorded: AppView,
    ui_app_page: AppPage,
    ui_main_page: MainPage,
)
    requires
        recorded.app_page == Some(ui_app_page),
        recorded.main_page != Some(ui_main_page),
    ensures
        page_change(recorded, ui_app_page, ui_main_page) == Some(
            ToAppInstruction::PageChange(None, Some(ui_main_page)),
        ),
        after_pull(recorded, ui_app_page, ui_main_page).main_page == Some(ui_main_page),
        after_pull(recorded, ui_app_page, ui_main_page).app_page == recorded.app_page,
{
}

/// A `PageChange` that the pull phase owes names at least one page, and
/// names a page exactly when the UI shows another one than was recorded.
pub proof fn lemma_page_change_names_what_changed(
    recorded: AppView,
    ui_app_page: AppPage,
    ui_main_page: MainPage,
)
    ensures
        match page_change(recorded, ui_app_page, ui_main_page) {
            Some(ToAppInstruction::PageChange(new_app_page, new_main_page)) => {
                &&& new_app_page is Some || new_main_page is Some
                &&& new_app_page == changed_page(recorded.app_page, ui_app_page)
                &&& new_main_page == changed_page(recorded.main_page, ui_main_page)
            },
            Some(_) => false,
            None => recorded.app_page == Some(ui_app_page) && recorded.main_page == Some(
                ui_main_page,
            ),
        },
{
}

/// The pull phase settles within one step: once it has read what the UI
/// shows, reading the same pages again owes the worker nothing and changes
/// nothing.
pub proof fn lemma_pull_phase_settles(recorded: AppView, ui_app_page: AppPage, ui_main_page: MainPage)
    ensures
        page_change(after_pull(recorded, ui_app_page, ui_main_page), ui_app_page, ui_main_page)
            is None,
        after_pull(after_pull(recorded, ui_app_page, ui_main_page), ui_app_page, ui_main_page)
            == after_pull(recorded, ui_app_page, ui_main_page),
{
}

/// The two phases of a step may run in either order: each leaves alone what
/// the other reads and writes.
pub proof fn lemma_phases_commute(
    recorded: AppView,
    ui_app_page: AppPage,
    ui_main_page: MainPage,
    recomputed_at: Option<Timestamp>,
)
    ensures
        after_feed_sync(after_pull(recorded, ui_app_page, ui_main_page), recomputed_at)
            == after_pull(after_feed_sync(recorded, recomputed_at), ui_app_page, ui_main_page),
        page_change(after_feed_sync(recorded, recomputed_at), ui_app_page, ui_main_page)
            == page_change(recorded, ui_app_page, ui_main_page),
        feed_is_stale(after_pull(recorded, ui_app_page, ui_main_page), recomputed_at)
            == feed_is_stale(recorded, recomputed_at),
{
}

} // verus!
