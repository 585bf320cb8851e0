//! One step of the worker loop: what the worker does with whatever its two
//! channels hand it. The caller owns the loop, the pause between steps and
//! the backend; the decisions are made here.

use vstd::prelude::*;
use tokio::sync::mpsc::UnboundedReceiver;
use crate::app::{switch_to, App};
use crate::backend::{feed_after_all, BackendCommand};
use crate::channel::try_recv;
use crate::instruction::{Received, ToAppInstruction, ToUiInstruction};
use crate::pages::{app_page_feed, main_page_feed, AppPage, FeedKind, MainPage};

verus! {

/// Whether the worker loop goes on.
#[derive(Clone, Copy, Debug, PartialEq, Eq, Structural)]
pub enum WorkerState {
    Running,
    Stopped,
}

/// The page selectors to write into the UI, on the UI thread. An absent
/// selector is not written.
#[derive(Clone, Copy, Debug, PartialEq, Eq, Structural)]
pub struct PageWrite {
    pub app_page: Option<AppPage>,
    pub main_page: Option<MainPage>,
}

/// What the worker does with one receipt from the UI's channel.
#[derive(Debug)]
pub struct ToAppOutcome {
    /// Whether the loop goes on after this receipt.
    pub state: WorkerState,
    /// The backend commands to carry out, first to last.
    pub commands: Vec<BackendCommand>,
}

/// What one step of the worker loop asks of its caller.
#[derive(Debug)]
pub struct Drained {
    /// Whether the loop goes on after this step.
    pub state: WorkerState,
    /// The backend commands to carry out, first to last.
    pub commands: Vec<BackendCommand>,
    /// The page selectors to write into the UI, if a write was requested.
    pub page_write: Option<PageWrite>,
}

/// A command as a sequence: one element, or none.
pub open spec fn command_seq(command: Option<BackendCommand>) -> Seq<BackendCommand> {
    match command {
        Some(c) => seq![c],
        None => Seq::empty(),
    }
}

/// The backend commands that a page change stands for: the one bound to the
/// app page, if an app page is present and has one, then the one bound to the
/// main page, if a main page is present and has one.
pub open spec fn page_change_commands(
    maybe_app: Option<AppPage>,
    maybe_main: Option<MainPage>,
) -> Seq<BackendCommand> {
    let for_app = match maybe_app {
        Some(page) => command_seq(switch_to(app_page_feed(page))),
        None => Seq::empty(),
    };
    let for_main = match maybe_main {
        Some(page) => command_seq(switch_to(main_page_feed(page))),
        None => Seq::empty(),
    };
    for_app + for_main
}

/// Whether the loop goes on after a receipt from the UI's channel: it stops
/// on `Quit`, and when every sender is gone.
pub open spec fn to_app_state(received: Received<ToAppInstruction>) -> WorkerState {
    match received {
        Received::Message(ToAppInstruction::Quit) => WorkerState::Stopped,
        Received::Disconnected => WorkerState::Stopped,
        _ => WorkerState::Running,
    }
}

/// The backend commands that a receipt from the UI's channel stands for.
pub open spec fn to_app_commands(received: Received<ToAppInstruction>) -> Seq<BackendCommand> {
    match received {
        Received::Message(ToAppInstruction::PageChange(maybe_app, maybe_main)) => {
            page_change_commands(maybe_app, maybe_main)
        },
        Received::Message(ToAppInstruction::RequestRecompute) => seq![BackendCommand::SyncRecompute],
        _ => Seq::empty(),
    }
}

/// The UI write that a receipt from the worker's own channel stands for. An
/// empty channel asks for none, and neither does one without senders: the UI
/// channel may have no producer, so that is no reason to stop.
pub open spec fn to_ui_write(received: Received<ToUiInstruction>) -> Option<PageWrite> {
    match received {
        Received::Message(ToUiInstruction::RequestPage(app_page, main_page)) => Some(
            PageWrite { app_page, main_page },
        ),
        _ => None,
    }
}

/// What a whole step asks of its caller, given both receipts. A step that
/// stops the loop does not look at the second channel.
pub open spec fn drained_page_write(
    from_ui: Received<ToAppInstruction>,
    from_app: Received<ToUiInstruction>,
) -> Option<PageWrite> {
    if to_app_state(from_ui) is Stopped {
        None
    } else {
        to_ui_write(from_app)
    }
}

/// The worker's state after a run of receipts from the UI's channel, one per
/// step: stopped as soon as one receipt stops it, and for good.
pub open spec fn state_after(receipts: Seq<Received<ToAppInstruction>>) -> WorkerState
    decreases receipts.len(),
{
    if receipts.len() == 0 {
        WorkerState::Running
    } else if state_after(receipts.drop_last()) is Stopped {
        WorkerState::Stopped
    } else {
        to_app_state(receipts.last())
    }
}

/// Carries out a page change on the shared state and collects the backend
/// commands bound to the pages it names.
fn apply_page_change(
    app: &mut App,
    maybe_app: Option<AppPage>,
    maybe_main: Option<MainPage>,
) -> (commands: Vec<BackendCommand>)
    ensures
        commands@ == page_change_commands(maybe_app, maybe_main),
        final(app)@ == old(app)@,
{
    let mut commands: Vec<BackendCommand> = Vec::new();
    if let Some(app_page) = maybe_app {
        if let Some(command) = app.app_page_change(app_page) {
            commands.push(command);
        }
    }
    if let Some(main_page) = maybe_main {
        if let Some(command) = app.main_page_change(main_page) {
            commands.push(command);
        }
    }
    commands
}

/// Decides what to do with one receipt from the UI's channel. `Quit` and a
/// channel without senders stop the loop; a page change yields the commands
/// bound to its pages; a recompute request yields the recompute command; an
/// empty channel yields nothing. The shared state stays as it is.
pub fn handle_to_app(app: &mut App, received: Received<ToAppInstruction>) -> (outcome: ToAppOutcome)
    ensures
        outcome.state == to_app_state(received),
        outcome.commands@ == to_app_commands(received),
        final(app)@ == old(app)@,
{
    match received {
        Received::Message(ToAppInstruction::Quit) => ToAppOutcome {
            state: WorkerState::Stopped,
            commands: Vec::new(),
        },
        Received::Message(ToAppInstruction::PageChange(maybe_app, maybe_main)) => {
            let commands = apply_page_change(app, maybe_app, maybe_main);
            ToAppOutcome { state: WorkerState::Running, commands }
        },
        Received::Message(ToAppInstruction::RequestRecompute) => {
            let mut commands: Vec<BackendCommand> = Vec::new();
            commands.push(BackendCommand::SyncRecompute);
            ToAppOutcome { state: WorkerState::Running, commands }
        },
        Received::Disconnected => ToAppOutcome {
            state: WorkerState::Stopped,
            commands: Vec::new(),
        },
        Received::Empty => ToAppOutcome { state: WorkerState::Running, commands: Vec::new() },
    }
}

/// Decides what to do with one receipt from the worker's own channel: a page
/// request becomes a UI write of the selectors it carries; an empty channel
/// and one without senders ask for nothing.
pub fn handle_to_ui(received: Received<ToUiInstruction>) -> (write: Option<PageWrite>)
    ensures
        write == to_ui_write(received),
{
    match received {
        Received::Message(ToUiInstruction::RequestPage(app_page, main_page)) => Some(
            PageWrite { app_page, main_page },
        ),
        Received::Empty => None,
        Received::Disconnected => None,
    }
}

/// One step of the worker loop after its pause: takes at most one instruction
/// from the UI's channel and, unless that stops the loop, at most one from the
/// worker's own channel. Neither receive blocks. Whatever the channels hand
/// over, the result is what [`handle_to_app`] and [`handle_to_ui`] make of
/// some pair of receipts, and the shared state stays as it is.
pub fn drain_instructions(
    app: &mut App,
    from_ui: &mut UnboundedReceiver<ToAppInstruction>,
    from_app: &mut UnboundedReceiver<ToUiInstruction>,
) -> (drained: Drained)
    ensures
        final(app)@ == old(app)@,
        exists|ui: Received<ToAppInstruction>, own: Received<ToUiInstruction>|
            {
                &&& drained.state == to_app_state(ui)
                &&& drained.commands@ == to_app_commands(ui)
                &&& drained.page_write == #[trigger] drained_page_write(ui, own)
            },
        drained.state is Stopped ==> drained.commands@.len() == 0 && drained.page_write is None,
{
    let ui = try_recv(from_ui);
    let outcome = handle_to_app(app, ui);
    match outcome.state {
        WorkerState::Stopped => {
            assert(drained_page_write(ui, Received::Empty) is None);
            Drained { state: WorkerState::Stopped, commands: outcome.commands, page_write: None }
        },
        WorkerState::Running => {
            let own = try_recv(from_app);
            let page_write = handle_to_ui(own);
            assert(page_write == drained_page_write(ui, own));
            Drained { state: WorkerState::Running, commands: outcome.commands, page_write }
        },
    }
}

/// `Quit` stops the loop, whatever came before it: once the receipt at
/// position `at` is a `Quit`, the worker is stopped after `at + 1` steps and
/// after every later one.
pub proof fn lemma_quit_stops_the_loop(receipts: Seq<Received<ToAppInstruction>>, at: int)
    requires
        0 <= at < receipts.len(),
        receipts[at] == Received::Message(ToAppInstruction::Quit),
    ensures
        state_after(receipts.take(at + 1)) is Stopped,
        state_after(receipts) is Stopped,
{
    lemma_stopping_receipt_stops_the_loop(receipts, at);
}

/// A channel whose senders are all gone ends the loop as `Quit` does: the
/// two receipts lead to the same state and the same (empty) commands, and the
/// worker is stopped after the step that finds the channel disconnected.
pub proof fn lemma_peer_gone_is_quit(receipts: Seq<Received<ToAppInstruction>>, at: int)
    requires
        0 <= at < receipts.len(),
        receipts[at] == Received::<ToAppInstruction>::Disconnected,
    ensures
        to_app_state(Received::Disconnected) == to_app_state(
            Received::Message(ToAppInstruction::Quit),
        ),
        to_app_commands(Received::Disconnected) == to_app_commands(
            Received::Message(ToAppInstruction::Quit),
        ),
        state_after(receipts) == state_after(
            receipts.update(at, Received::Message(ToAppInstruction::Quit)),
        ),
        state_after(receipts.take(at + 1)) is Stopped,
        state_after(receipts) is Stopped,
{
    let quit = receipts.update(at, Received::Message(ToAppInstruction::Quit));
    lemma_stopping_receipt_stops_the_loop(receipts, at);
    lemma_stopping_receipt_stops_the_loop(quit, at);
}

/// A receipt that stops the loop stops it for good.
proof fn lemma_stopping_receipt_stops_the_loop(
    receipts: Seq<Received<ToAppInstruction>>,
    at: int,
)
    requires
        0 <= at < receipts.len(),
        to_app_state(receipts[at]) is Stopped,
    ensures
        state_after(receipts.take(at + 1)) is Stopped,
        state_after(receipts) is Stopped,
    decreases receipts.len(),
{
    let upto = receipts.take(at + 1);
    assert(upto.last() == receipts[at]);
    if at + 1 < receipts.len() {
        lemma_stopping_receipt_stops_the_loop(receipts.drop_last(), at);
        assert(receipts.drop_last().take(at + 1) == upto);
    } else {
        assert(upto == receipts);
    }
}

/// While no receipt stops the loop, it keeps running.
pub proof fn lemma_runs_until_stopped(receipts: Seq<Received<ToAppInstruction>>)
    requires
        forall|i: int| 0 <= i < receipts.len() ==> to_app_state(#[trigger] receipts[i]) is Running,
    ensures
        state_after(receipts) is Running,
    decreases receipts.len(),
{
    if receipts.len() > 0 {
        lemma_runs_until_stopped(receipts.drop_last());
    }
}

/// A page change that names only pages without a bound feed asks nothing of
/// the backend, so the feed the backend follows stays as it was.
pub proof fn lemma_unmapped_page_keeps_feed(
    feed: FeedKind,
    maybe_app: Option<AppPage>,
    maybe_main: Option<MainPage>,
)
    requires
        maybe_app matches Some(page) ==> app_page_feed(page) is None,
        maybe_main matches Some(page) ==> main_page_feed(page) is None,
    ensures
        to_app_commands(Received::Message(ToAppInstruction::PageChange(maybe_app, maybe_main)))
            == Seq::<BackendCommand>::empty(),
        feed_after_all(
            feed,
            to_app_commands(Received::Message(ToAppInstruction::PageChange(maybe_app, maybe_main))),
        ) == feed,
{
}

/// Showing the feed page switches the backend to the direct inbox, whatever
/// it followed before; a recompute request leaves the feed it follows alone.
pub proof fn lemma_feed_page_switches_to_inbox(feed: FeedKind, maybe_app: Option<AppPage>)
    ensures
        feed_after_all(
            feed,
            to_app_commands(
                Received::Message(ToAppInstruction::PageChange(maybe_app, Some(MainPage::Feed))),
            ),
        ) == FeedKind::Inbox(false),
        feed_after_all(feed, to_app_commands(Received::Message(ToAppInstruction::RequestRecompute)))
            == feed,
{
    let switch = seq![BackendCommand::SwitchFeed(FeedKind::Inbox(false))];
    assert(page_change_commands(maybe_app, Some(MainPage::Feed)) == switch);
    assert(switch.drop_last() == Seq::<BackendCommand>::empty());
    assert(feed_after_all(feed, switch.drop_last()) == feed);
    let recompute = seq![BackendCommand::SyncRecompute];
    assert(recompute.drop_last() == Seq::<BackendCommand>::empty());
    assert(feed_after_all(feed, recompute.drop_last()) == feed);
}

} // verus!
