//! The two reconciliation phases that run once per step of the worker loop:
//! the pull phase reads the UI into the shared state, the push phase decides
//! what of the backend's state the UI has to be given.

use vstd::prelude::*;
use crate::app::{after_feed_sync, after_pull, feed_is_stale, page_change, App, Timestamp};
use crate::instruction::ToAppInstruction;
use crate::nostr::{
    encode_public_key_bech32, encode_public_key_hex, public_key_bech32, public_key_hex,
};
use crate::notedata::{shows_event, NoteData, NoteEvent, UiNoteData};
use crate::pages::{AppPage, MainPage};
use crate::text::{or_invalid, text_or_invalid};

verus! {

/// How the pull phase ended.
#[derive(Clone, Copy, Debug, PartialEq, Eq, Structural)]
pub enum PullOutcome {
    /// The UI shows what was recorded; nothing was sent.
    Unchanged,
    /// The UI shows something new, and this instruction was queued for the worker.
    Enqueued(ToAppInstruction),
    /// The UI shows something new, but the worker's end of the channel is
    /// gone: this instruction was not queued.
    PeerGone(ToAppInstruction),
}

/// What the backend shows of itself at the start of a step.
pub struct Globals {
    /// The public key of the current identity, if there is one.
    pub public_key: Option<[u8; 32]>,
    /// Whether the identity has a private key.
    pub has_private_key: bool,
    /// Whether that private key is unlocked.
    pub is_unlocked: bool,
    /// When the backend last recomputed the feed, if it ever did.
    pub last_feed_recompute: Option<Timestamp>,
}

/// The signer as the UI shows it.
#[derive(Debug, PartialEq, Eq)]
pub struct UiSignerInfo {
    pub has_pubkey: bool,
    pub has_signer: bool,
    pub is_unlocked: bool,
    pub pubkey_bech: String,
    pub pubkey_hex: String,
}

/// What the UI is told after an attempt to unlock the private key.
#[derive(Debug, PartialEq, Eq)]
pub struct UiLoginStatus {
    /// Whether the attempt failed.
    pub failed: bool,
    /// The backend's words on the failure; empty after a success.
    pub error: String,
}

/// What the push phase asks of its caller.
pub struct GlobalsUpdate {
    /// The signer to show; it is written on every step.
    pub signer: UiSignerInfo,
    /// Whether the feed has to be read from the backend and shown anew.
    pub rebuild_feed: bool,
}

/// How the pull phase ends once the channel has answered: the instruction
/// was queued, or the worker's end is gone and the channel handed it back.
pub open spec fn sent_outcome(
    instruction: ToAppInstruction,
    sent: Result<(), ToAppInstruction>,
) -> PullOutcome {
    match sent {
        Ok(_) => PullOutcome::Enqueued(instruction),
        Err(returned) => PullOutcome::PeerGone(returned),
    }
}

/// Whether `signer` is what the UI is to show of this identity: the key in
/// hexadecimal and in bech32 if there is a key, two empty texts if not.
pub open spec fn shows_signer(
    signer: UiSignerInfo,
    public_key: Option<[u8; 32]>,
    has_private_key: bool,
    is_unlocked: bool,
) -> bool {
    &&& signer.has_pubkey == public_key is Some
    &&& signer.has_signer == has_private_key
    &&& signer.is_unlocked == is_unlocked
    &&& signer.pubkey_hex@ == match public_key {
        Some(key) => text_or_invalid(public_key_hex(key@)),
        None => Seq::empty(),
    }
    &&& signer.pubkey_bech@ == match public_key {
        Some(key) => text_or_invalid(public_key_bech32(key@)),
        None => Seq::empty(),
    }
}

/// Whether `status` tells the UI how an unlock attempt ended: a failure is
/// always shown, with the backend's words on it.
pub open spec fn shows_login(status: UiLoginStatus, unlock: Result<(), String>) -> bool {
    &&& status.failed == unlock is Err
    &&& status.error@ == match unlock {
        Ok(_) => Seq::empty(),
        Err(error) => error@,
    }
}

/// The items that storage holds, in the order in which they were asked for.
pub open spec fn stored<T>(items: Seq<Option<T>>) -> Seq<T> {
    items.filter_map(|item: Option<T>| item)
}

/// Whether `notes` is the display form of `events`: one note for each, in
/// the same order.
pub open spec fn shows_feed(notes: Seq<UiNoteData>, events: Seq<NoteEvent>) -> bool {
    &&& notes.len() == events.len()
    &&& forall|i: int| 0 <= i < events.len() ==> shows_event(#[trigger] notes[i], events[i])
}

/// How the pull phase ends for an instruction that was handed to the
/// channel, given the channel's answer.
pub fn pull_outcome(instruction: ToAppInstruction, sent: Result<(), ToAppInstruction>) -> (outcome:
    PullOutcome)
    ensures
        outcome == sent_outcome(instruction, sent),
{
    match sent {
        Ok(_) => PullOutcome::Enqueued(instruction),
        Err(returned) => PullOutcome::PeerGone(returned),
    }
}

/// The pull phase. Records the pages the UI shows; if either differs from
/// what was recorded, hands the worker's channel one `PageChange` that
/// carries exactly the selectors that changed. Whether that instruction was
/// queued depends on the channel alone.
pub fn update_from_ui(app: &mut App, ui_app_page: AppPage, ui_main_page: MainPage) -> (outcome:
    PullOutcome)
    ensures
        final(app)@ == after_pull(old(app)@, ui_app_page, ui_main_page),
        match page_change(old(app)@, ui_app_page, ui_main_page) {
            Some(instruction) => outcome == PullOutcome::Enqueued(instruction) || outcome
                == PullOutcome::PeerGone(instruction),
            None => outcome == PullOutcome::Unchanged,
        },
{
    match app.observe_ui(ui_app_page, ui_main_page) {
        Some(instruction) => {
            let sent = app.send_to_app(instruction);
            pull_outcome(instruction, sent)
        },
        None => PullOutcome::Unchanged,
    }
}

/// Asks the worker to have the feed recomputed: hands the worker's channel
/// one `RequestRecompute`. The request is queued, or, when the worker's end
/// of the channel is gone, handed back as the error. Which of the two
/// happens depends on the channel alone.
pub fn request_recompute(app: &App) -> (sent: Result<(), ToAppInstruction>)
    ensures
        sent matches Err(returned) ==> returned == ToAppInstruction::RequestRecompute,
{
    app.send_to_app(ToAppInstruction::RequestRecompute)
}

/// What the UI is told after the backend has tried to unlock the private
/// key with the password the user gave. A failure never goes unseen.
pub fn login_status(unlock: Result<(), String>) -> (status: UiLoginStatus)
    ensures
        shows_login(status, unlock),
{
    match unlock {
        Ok(_) => UiLoginStatus { failed: false, error: String::new() },
        Err(error) => UiLoginStatus { failed: true, error },
    }
}

/// The signer as the UI is to show it.
pub fn signer_info(public_key: Option<[u8; 32]>, has_private_key: bool, is_unlocked: bool) -> (signer:
    UiSignerInfo)
    ensures
        shows_signer(signer, public_key, has_private_key, is_unlocked),
{
    match public_key {
        Some(key) => UiSignerInfo {
            has_pubkey: true,
            has_signer: has_private_key,
            is_unlocked,
            pubkey_bech: or_invalid(encode_public_key_bech32(&key)),
            pubkey_hex: or_invalid(encode_public_key_hex(&key)),
        },
        None => UiSignerInfo {
            has_pubkey: false,
            has_signer: has_private_key,
            is_unlocked,
            pubkey_bech: String::new(),
            pubkey_hex: String::new(),
        },
    }
}

/// The push phase. The signer is shown anew on every step. The feed is
/// rebuilt only when the backend's recompute time differs from the one
/// recorded, and that time is then recorded.
pub fn update_from_globals(app: &mut App, globals: Globals) -> (update: GlobalsUpdate)
    ensures
        shows_signer(
            update.signer,
            globals.public_key,
            globals.has_private_key,
            globals.is_unlocked,
        ),
        update.rebuild_feed == feed_is_stale(old(app)@, globals.last_feed_recompute),
        final(app)@ == after_feed_sync(old(app)@, globals.last_feed_recompute),
{
    let signer = signer_info(globals.public_key, globals.has_private_key, globals.is_unlocked);
    let rebuild_feed = app.observe_feed_recompute(globals.last_feed_recompute);
    GlobalsUpdate { signer, rebuild_feed }
}

/// The feed as the UI is to show it, rebuilt from scratch: `events` holds,
/// for each id of the feed in order, what storage had under that id. An id
/// without a stored event is passed over; every other event is shown, in the
/// order of the ids.
pub fn rebuild_feed_notes(events: Vec<Option<NoteEvent>>) -> (notes: Vec<UiNoteData>)
    ensures
        shows_feed(notes@, stored(events@)),
{
    let mut notes: Vec<UiNoteData> = Vec::new();
    for event in iter: events
        invariant
            iter.seq() == events@,
            shows_feed(notes@, stored(events@.take(iter.index()))),
    {
        proof {
            let seen = events@.take(iter.index() + 1);
            assert(seen.drop_last() == events@.take(iter.index()));
            assert(seen.last() == events@[iter.index()]);
        }
        if let Some(event) = event {
            notes.push(NoteData::fill_ui_notedata(event));
        }
    }
    proof {
        assert(events@.take(events@.len() as int) == events@);
    }
    notes
}

/// An id without a stored event leaves no trace in the feed, wherever it
/// stands among the ids.
pub proof fn lemma_missing_item_is_skipped<T>(before: Seq<Option<T>>, after: Seq<Option<T>>)
    ensures
        stored(before + seq![None] + after) == stored(before) + stored(after),
{
    lemma_stored_concat(before, seq![None]);
    lemma_stored_concat(before + seq![None], after);
    lemma_stored_single(None::<T>);
}

/// A stored event stands in the feed where its id stands among the ids.
pub proof fn lemma_stored_item_is_kept<T>(before: Seq<Option<T>>, item: T, after: Seq<Option<T>>)
    ensures
        stored(before + seq![Some(item)] + after) == stored(before) + seq![item] + stored(after),
{
    lemma_stored_concat(before, seq![Some(item)]);
    lemma_stored_concat(before + seq![Some(item)], after);
    lemma_stored_single(Some(item));
}

/// The feed of a single id: its event if storage has one, nothing if not.
proof fn lemma_stored_single<T>(item: Option<T>)
    ensures
        stored(seq![item]) == match item {
            Some(found) => seq![found],
            None => Seq::empty(),
        },
{
    let single = seq![item];
    assert(single.drop_last() == Seq::<Option<T>>::empty());
    assert(stored(single.drop_last()) == Seq::<T>::empty());
    assert(single.last() == item);
}

/// The feed of two runs of ids, one after the other, is the feed of the
/// first followed by the feed of the second.
pub proof fn lemma_stored_concat<T>(first: Seq<Option<T>>, second: Seq<Option<T>>)
    ensures
        stored(first + second) == stored(first) + stored(second),
    decreases second.len(),
{
    if second.len() == 0 {
        assert(first + second == first);
    } else {
        lemma_stored_concat(first, second.drop_last());
        assert((first + second).drop_last() == first + second.drop_last());
        assert((first + second).last() == second.last());
    }
}

} // verus!
