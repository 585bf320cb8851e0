//! Text that may be missing, and the sentinel shown in its place.

use vstd::prelude::*;

verus! {

/// The characters of an optional string.
pub open spec fn text_view(text: Option<String>) -> Option<Seq<char>> {
    match text {
        Some(t) => Some(t@),
        None => None,
    }
}

/// What is shown for a text that may be missing: the text itself, or the
/// word `invalid` in its place.
pub open spec fn text_or_invalid(text: Option<Seq<char>>) -> Seq<char> {
    match text {
        Some(t) => t,
        None => "invalid"@,
    }
}

/// Renders a text that may be missing: the text itself, or the word
/// `invalid` in its place. Malformed data is shown, never reported.
pub fn or_invalid(text: Option<String>) -> (shown: String)
    ensures
        shown@ == text_or_invalid(text_view(text)),
{
    match text {
        Some(t) => t,
        None => "invalid".to_owned(),
    }
}

} // verus!
