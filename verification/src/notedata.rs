//! Display forms of feed items.

use vstd::prelude::*;
use crate::datetime::{format_rfc2822, rfc2822_text};
use crate::nostr::{encode_note_id, encode_public_key_bech32, note_id_bech32, public_key_bech32};
use crate::text::{or_invalid, text_or_invalid};

verus! {

/// A piece of an event's content, in the order in which the pieces stand.
pub enum ContentSegment {
    /// Plain text.
    Plain(String),
    /// A reference to a nostr entity.
    NostrUrl,
    /// A web link, with its text.
    Hyperlink(String),
    /// A reference to one of the event's tags.
    TagReference,
}

/// An event as the backend stores it, reduced to what is shown of it.
pub struct NoteEvent {
    /// The event's id.
    pub id: [u8; 32],
    /// The author's public key.
    pub pubkey: [u8; 32],
    /// When the event was created, in seconds since the start of 1970.
    pub created_at: i64,
    /// How long ago that was, as rendered when the event was read.
    pub created_ago: String,
    /// The number of the event's kind.
    pub kind: u32,
    /// The content as the author wrote it.
    pub content: String,
    /// The content, cut into its pieces.
    pub segments: Vec<ContentSegment>,
    /// The event's tags, each a list of strings.
    pub tags: Vec<Vec<String>>,
}

/// How a piece of content is displayed.
#[derive(Clone, Copy, Debug, PartialEq, Eq, Structural)]
pub enum UiContentSegmentType {
    Plain,
    NostrUrl,
    Hyperlink,
}

/// A piece of content as the UI shows it.
#[derive(Debug, PartialEq, Eq)]
pub struct UiContentSegment {
    pub content: String,
    pub kind: UiContentSegmentType,
}

/// How a note repeats another one. No note is examined for this so far.
#[derive(Clone, Copy, Debug, PartialEq, Eq, Structural)]
pub enum UiRepostType {
    NoRepost,
}

/// How a note's content is encrypted. No note is examined for this so far.
#[derive(Clone, Copy, Debug, PartialEq, Eq, Structural)]
pub enum UiEncryptionType {
    Unencrypted,
}

/// A feed item as the UI shows it.
#[derive(Debug, PartialEq, Eq)]
pub struct UiNoteData {
    pub id: String,
    pub author: String,
    pub created_at: String,
    pub created_ago: String,
    pub kind: i32,
    pub content: Vec<UiContentSegment>,
    pub raw_content: String,
    pub tags: Vec<Vec<String>>,
    pub repost: UiRepostType,
    pub encryption: UiEncryptionType,
    pub bookmarked: bool,
}

/// The functions that turn a stored event into its display form.
pub struct NoteData {}

/// The number shown for an event kind: the kind's 32 bits read as a signed
/// number.
pub open spec fn kind_number(kind: u32) -> int {
    if kind <= i32::MAX {
        kind as int
    } else {
        kind - 0x1_0000_0000
    }
}

/// The text shown for a piece of content.
pub open spec fn segment_text(segment: ContentSegment) -> Seq<char> {
    match segment {
        ContentSegment::Plain(text) => text@,
        ContentSegment::NostrUrl => "TODO nostr-url"@,
        ContentSegment::Hyperlink(text) => text@,
        ContentSegment::TagReference => "TODO tag"@,
    }
}

/// How a piece of content is displayed. A tag reference is displayed as a
/// nostr reference is.
pub open spec fn segment_type(segment: ContentSegment) -> UiContentSegmentType {
    match segment {
        ContentSegment::Plain(_) => UiContentSegmentType::Plain,
        ContentSegment::NostrUrl => UiContentSegmentType::NostrUrl,
        ContentSegment::Hyperlink(_) => UiContentSegmentType::Hyperlink,
        ContentSegment::TagReference => UiContentSegmentType::NostrUrl,
    }
}

/// Whether `shown` is the display form of `segment`.
pub open spec fn shows_segment(shown: UiContentSegment, segment: ContentSegment) -> bool {
    shown.content@ == segment_text(segment) && shown.kind == segment_type(segment)
}

/// Whether `shown` is the display form of `segments`: one piece for each,
/// in the same order.
pub open spec fn shows_segments(shown: Seq<UiContentSegment>, segments: Seq<ContentSegment>) -> bool {
    &&& shown.len() == segments.len()
    &&& forall|i: int| 0 <= i < segments.len() ==> shows_segment(#[trigger] shown[i], segments[i])
}

/// Whether `note` is the display form of `event`.
pub open spec fn shows_event(note: UiNoteData, event: NoteEvent) -> bool {
    &&& note.id@ == text_or_invalid(note_id_bech32(event.id@))
    &&& note.author@ == text_or_invalid(public_key_bech32(event.pubkey@))
    &&& note.created_at@ == text_or_invalid(rfc2822_text(event.created_at))
    &&& note.created_ago == event.created_ago
    &&& note.kind == kind_number(event.kind)
    &&& shows_segments(note.content@, event.segments@)
    &&& note.raw_content == event.content
    &&& note.tags == event.tags
    &&& note.repost == UiRepostType::NoRepost
    &&& note.encryption == UiEncryptionType::Unencrypted
    &&& !note.bookmarked
}

impl NoteData {
    /// The display form of an event: id and author in bech32, the creation
    /// time as a calendar date, the kind as a number, the content piece by
    /// piece; not a repost, not encrypted, not bookmarked.
    pub fn fill_ui_notedata(event: NoteEvent) -> (note: UiNoteData)
        ensures
            shows_event(note, event),
    {
        UiNoteData {
            id: or_invalid(encode_note_id(&event.id)),
            author: or_invalid(encode_public_key_bech32(&event.pubkey)),
            created_at: NoteData::format_created_at(event.created_at),
            created_ago: event.created_ago,
            kind: NoteData::parse_event_kind(event.kind),
            content: NoteData::parse_content(event.segments),
            raw_content: event.content,
            tags: event.tags,
            repost: UiRepostType::NoRepost,
            encryption: UiEncryptionType::Unencrypted,
            bookmarked: false,
        }
    }

    /// The calendar date of a Unix time in RFC 2822 form, or `invalid` where
    /// there is none.
    pub fn format_created_at(created_at: i64) -> (text: String)
        ensures
            text@ == text_or_invalid(rfc2822_text(created_at)),
    {
        or_invalid(format_rfc2822(created_at))
    }

    /// The number shown for an event kind.
    pub fn parse_event_kind(kind: u32) -> (number: i32)
        ensures
            number == kind_number(kind),
    {
        if kind <= 0x7fff_ffff {
            kind as i32
        } else {
            let above: u32 = kind - 0x8000_0000;
            (above as i32) + i32::MIN
        }
    }

    /// The display form of an event's content, piece by piece.
    pub fn parse_content(segments: Vec<ContentSegment>) -> (ui_content: Vec<UiContentSegment>)
        ensures
            shows_segments(ui_content@, segments@),
    {
        let mut ui_content: Vec<UiContentSegment> = Vec::new();
        for segment in iter: segments
            invariant
                iter.seq() == segments@,
                ui_content@.len() == iter.index(),
                forall|i: int|
                    0 <= i < iter.index() ==> shows_segment(#[trigger] ui_content@[i], segments@[i]),
        {
            let ui_segment = match segment {
                ContentSegment::Plain(text) => UiContentSegment {
                    content: text,
                    kind: UiContentSegmentType::Plain,
                },
                ContentSegment::NostrUrl => UiContentSegment {
                    content: "TODO nostr-url".to_owned(),
                    kind: UiContentSegmentType::NostrUrl,
                },
                ContentSegment::Hyperlink(text) => UiContentSegment {
                    content: text,
                    kind: UiContentSegmentType::Hyperlink,
                },
                ContentSegment::TagReference => UiContentSegment {
                    content: "TODO tag".to_owned(),
                    kind: UiContentSegmentType::NostrUrl,
                },
            };
            ui_content.push(ui_segment);
        }
        ui_content
    }
}

} // verus!
