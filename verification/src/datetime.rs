//! Calendar text of a Unix time, as the `time` crate formats it.

use vstd::prelude::*;
use time::format_description::well_known::Rfc2822;
use time::OffsetDateTime;
use crate::text::text_view;

verus! {

/// The RFC 2822 text of the UTC instant that lies `unix_seconds` seconds
/// after the start of 1970, as the `time` crate formats it; `None` where the
/// crate has no such date or no such text for it.
pub uninterp spec fn rfc2822_text(unix_seconds: i64) -> Option<Seq<char>>;

/// `OffsetDateTime::format` with `Rfc2822` on the instant that
/// `OffsetDateTime::from_unix_timestamp` makes of the seconds. The result
/// is a function of the seconds alone; `None` stands for the error of
/// either call.
#[verifier::external_body]
pub(crate) fn format_rfc2822(unix_seconds: i64) -> (text: Option<String>)
    ensures
        text_view(text) == rfc2822_text(unix_seconds),
{
    match OffsetDateTime::from_unix_timestamp(unix_seconds) {
        Ok(stamp) => stamp.format(&Rfc2822).ok(),
        Err(_) => None,
    }
}

} // verus!
