//! Text forms of event ids and public keys, as `nostr_types` encodes them.

use vstd::prelude::*;
use nostr_types::{Id, PublicKey};
use crate::text::text_view;

verus! {

/// The bech32 text of an event id, as `nostr_types` encodes it.
pub uninterp spec fn note_id_bech32(id: Seq<u8>) -> Option<Seq<char>>;

/// The hexadecimal text of a public key, as `nostr_types` encodes it.
pub uninterp spec fn public_key_hex(key: Seq<u8>) -> Option<Seq<char>>;

/// The bech32 text of a public key, as `nostr_types` encodes it.
pub uninterp spec fn public_key_bech32(key: Seq<u8>) -> Option<Seq<char>>;

/// `Id::try_as_bech32_string` on the id made of these bytes. The result is
/// a function of the bytes alone; `None` stands for the encoder's error.
#[verifier::external_body]
pub(crate) fn encode_note_id(id: &[u8; 32]) -> (text: Option<String>)
    ensures
        text_view(text) == note_id_bech32(id@),
{
    Id(*id).try_as_bech32_string().ok()
}

/// `PublicKey::as_hex_string` on the key that `PublicKey::from_bytes` makes
/// of these bytes. The result is a function of the bytes alone; `None`
/// stands for bytes that are no public key.
#[verifier::external_body]
pub(crate) fn encode_public_key_hex(key: &[u8; 32]) -> (text: Option<String>)
    ensures
        text_view(text) == public_key_hex(key@),
{
    match PublicKey::from_bytes(key) {
        Ok(public_key) => Some(public_key.as_hex_string()),
        Err(_) => None,
    }
}

/// `PublicKey::try_as_bech32_string` on the key that `PublicKey::from_bytes`
/// makes of these bytes. The result is a function of the bytes alone; `None`
/// stands for bytes that are no public key, and for the encoder's error.
#[verifier::external_body]
pub(crate) fn encode_public_key_bech32(key: &[u8; 32]) -> (text: Option<String>)
    ensures
        text_view(text) == public_key_bech32(key@),
{
    match PublicKey::from_bytes(key) {
        Ok(public_key) => public_key.try_as_bech32_string().ok(),
        Err(_) => None,
    }
}

} // verus!
