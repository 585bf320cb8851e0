use gossip_app::facade::{rebuild_feed_notes, signer_info};
use gossip_app::notedata::{
    ContentSegment, NoteData, NoteEvent, UiContentSegment, UiContentSegmentType,
    UiEncryptionType, UiRepostType,
};
use gossip_app::text::or_invalid;

const AUTHOR_HEX: &str = "3bf0c63fcb93463407af97a5e5ee64fa883d107ef9e558472c4eb9aaaefa459d";
const AUTHOR_BECH32: &str = "npub180cvv07tjdrrgpa0j7j7tmnyl2yr6yr7l8j4s3evf6u64th6gkwsyjh6w6";

fn bytes_of(hex: &str) -> [u8; 32] {
    let digits: Vec<u8> = hex.bytes().collect();
    let mut bytes = [0u8; 32];
    for i in 0..32 {
        let high = (digits[2 * i] as char).to_digit(16).unwrap() as u8;
        let low = (digits[2 * i + 1] as char).to_digit(16).unwrap() as u8;
        bytes[i] = high * 16 + low;
    }
    bytes
}

fn event_with_id(first_byte: u8) -> NoteEvent {
    let mut id = [0u8; 32];
    id[0] = first_byte;
    NoteEvent {
        id,
        pubkey: bytes_of(AUTHOR_HEX),
        created_at: 1_546_300_800,
        created_ago: String::from("3d"),
        kind: 1,
        content: String::from("hello https://example.com"),
        segments: vec![
            ContentSegment::Plain(String::from("hello ")),
            ContentSegment::Hyperlink(String::from("https://example.com")),
        ],
        tags: vec![vec![String::from("t"), String::from("greeting")]],
    }
}

fn note_text_of(id: [u8; 32]) -> String {
    nostr_types::Id(id).try_as_bech32_string().unwrap()
}

#[test]
fn created_at_is_an_rfc2822_date() {
    assert_eq!(NoteData::format_created_at(0), "Thu, 01 Jan 1970 00:00:00 +0000");
    assert_eq!(
        NoteData::format_created_at(1_546_300_800),
        "Tue, 01 Jan 2019 00:00:00 +0000"
    );
    assert_eq!(
        NoteData::format_created_at(1_668_572_286),
        "Wed, 16 Nov 2022 04:18:06 +0000"
    );
}

#[test]
fn created_at_out_of_range_is_invalid() {
    assert_eq!(NoteData::format_created_at(i64::MAX), "invalid");
    assert_eq!(NoteData::format_created_at(i64::MIN), "invalid");
}

#[test]
fn created_at_before_1900_is_invalid() {
    assert_eq!(NoteData::format_created_at(-2_208_988_801), "invalid");
    assert_eq!(
        NoteData::format_created_at(-2_208_988_800),
        "Mon, 01 Jan 1900 00:00:00 +0000"
    );
}

#[test]
fn or_invalid_keeps_text_and_replaces_none() {
    assert_eq!(or_invalid(Some(String::from("note1abc"))), "note1abc");
    assert_eq!(or_invalid(Some(String::new())), "");
    assert_eq!(or_invalid(None), "invalid");
}

#[test]
fn event_kind_is_read_as_a_signed_number() {
    assert_eq!(NoteData::parse_event_kind(0), 0);
    assert_eq!(NoteData::parse_event_kind(1), 1);
    assert_eq!(NoteData::parse_event_kind(30_023), 30_023);
    assert_eq!(NoteData::parse_event_kind(0x7fff_ffff), i32::MAX);
    assert_eq!(NoteData::parse_event_kind(0x8000_0000), i32::MIN);
    assert_eq!(NoteData::parse_event_kind(0xffff_ffff), -1);
}

#[test]
fn content_is_shown_piece_by_piece() {
    let segments = vec![
        ContentSegment::Plain(String::from("see ")),
        ContentSegment::NostrUrl,
        ContentSegment::Hyperlink(String::from("https://example.com/a")),
        ContentSegment::TagReference,
    ];
    let shown = NoteData::parse_content(segments);
    assert_eq!(
        shown,
        vec![
            UiContentSegment {
                content: String::from("see "),
                kind: UiContentSegmentType::Plain,
            },
            UiContentSegment {
                content: String::from("TODO nostr-url"),
                kind: UiContentSegmentType::NostrUrl,
            },
            UiContentSegment {
                content: String::from("https://example.com/a"),
                kind: UiContentSegmentType::Hyperlink,
            },
            UiContentSegment {
                content: String::from("TODO tag"),
                kind: UiContentSegmentType::NostrUrl,
            },
        ]
    );
}

#[test]
fn empty_content_has_no_pieces() {
    assert!(NoteData::parse_content(Vec::new()).is_empty());
}

#[test]
fn note_shows_every_field_of_its_event() {
    let event = event_with_id(0x5d);
    let id = event.id;
    let note = NoteData::fill_ui_notedata(event);
    assert_eq!(note.id, note_text_of(id));
    assert!(note.id.starts_with("note1"));
    assert_eq!(note.author, AUTHOR_BECH32);
    assert_eq!(note.created_at, "Tue, 01 Jan 2019 00:00:00 +0000");
    assert_eq!(note.created_ago, "3d");
    assert_eq!(note.kind, 1);
    assert_eq!(
        note.content,
        vec![
            UiContentSegment {
                content: String::from("hello "),
                kind: UiContentSegmentType::Plain,
            },
            UiContentSegment {
                content: String::from("https://example.com"),
                kind: UiContentSegmentType::Hyperlink,
            },
        ]
    );
    assert_eq!(note.raw_content, "hello https://example.com");
    assert_eq!(note.tags, vec![vec![String::from("t"), String::from("greeting")]]);
    assert_eq!(note.repost, UiRepostType::NoRepost);
    assert_eq!(note.encryption, UiEncryptionType::Unencrypted);
    assert!(!note.bookmarked);
}

#[test]
fn note_id_is_bech32_of_the_id_bytes() {
    let id = bytes_of("5df64b33303d62afc799bdc36d178c07b2e1f0d824f31b7dc812219440affab6");
    let mut event = event_with_id(0);
    event.id = id;
    let note = NoteData::fill_ui_notedata(event);
    assert_eq!(note.id, note_text_of(id));
    assert_eq!(note.id.len(), 63);
    assert_ne!(
        note.id,
        "5df64b33303d62afc799bdc36d178c07b2e1f0d824f31b7dc812219440affab6"
    );
}

#[test]
fn author_that_is_no_public_key_is_invalid() {
    let mut event = event_with_id(1);
    event.pubkey = [0xff; 32];
    let note = NoteData::fill_ui_notedata(event);
    assert_eq!(note.author, "invalid");
}

#[test]
fn rebuilt_feed_skips_missing_events() {
    let a = event_with_id(0xa);
    let c = event_with_id(0xc);
    let (id_a, id_c) = (a.id, c.id);
    let notes = rebuild_feed_notes(vec![Some(a), None, Some(c)]);
    assert_eq!(notes.len(), 2);
    assert_eq!(notes[0].id, note_text_of(id_a));
    assert_eq!(notes[1].id, note_text_of(id_c));
    assert_ne!(notes[0].id, notes[1].id);
}

#[test]
fn rebuilt_feed_keeps_the_order_of_the_ids() {
    let ids = [9u8, 3, 7, 1];
    let events: Vec<Option<NoteEvent>> = ids.iter().map(|b| Some(event_with_id(*b))).collect();
    let notes = rebuild_feed_notes(events);
    assert_eq!(notes.len(), 4);
    for (note, first_byte) in notes.iter().zip(ids) {
        let mut id = [0u8; 32];
        id[0] = first_byte;
        assert_eq!(note.id, note_text_of(id));
    }
}

#[test]
fn rebuilt_feed_of_nothing_is_empty() {
    assert!(rebuild_feed_notes(Vec::new()).is_empty());
    assert!(rebuild_feed_notes(vec![None, None]).is_empty());
}

#[test]
fn signer_without_identity_has_empty_keys() {
    let signer = signer_info(None, false, false);
    assert!(!signer.has_pubkey);
    assert!(!signer.has_signer);
    assert!(!signer.is_unlocked);
    assert_eq!(signer.pubkey_hex, "");
    assert_eq!(signer.pubkey_bech, "");
}

#[test]
fn signer_shows_the_key_in_both_forms() {
    let signer = signer_info(Some(bytes_of(AUTHOR_HEX)), true, false);
    assert!(signer.has_pubkey);
    assert!(signer.has_signer);
    assert!(!signer.is_unlocked);
    assert_eq!(signer.pubkey_hex, AUTHOR_HEX);
    assert_eq!(signer.pubkey_bech, AUTHOR_BECH32);
}

#[test]
fn signer_flags_are_passed_through() {
    let signer = signer_info(Some(bytes_of(AUTHOR_HEX)), false, true);
    assert!(signer.has_pubkey);
    assert!(!signer.has_signer);
    assert!(signer.is_unlocked);
}

#[test]
fn signer_with_bytes_that_are_no_key_is_invalid() {
    let signer = signer_info(Some([0xff; 32]), true, true);
    assert!(signer.has_pubkey);
    assert_eq!(signer.pubkey_hex, "invalid");
    assert_eq!(signer.pubkey_bech, "invalid");
}
