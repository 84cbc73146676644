//! Commit times as text. The calendar is `gix-date`'s.

use crate::model::Time;
use vstd::prelude::*;

verus! {

/// What `gix_date::Time::format_or_unix` returns for the format
/// `gix_date::time::format::ISO8601` on a time of `seconds` since the epoch
/// at `offset` seconds from UTC: the date, the time of day and the offset,
/// as in `2022-08-17 22:04:58 +0200`, or the bare seconds where the calendar
/// cannot hold the time.
pub uninterp spec fn iso8601_text(seconds: int, offset: int) -> Seq<char>;

/// Formats a time. Wraps `gix_date::Time::format_or_unix` with the format
/// `ISO8601`; the result depends on the two numbers alone.
#[verifier::external_body]
fn format_iso8601(seconds: i64, offset: i32) -> (text: String)
    ensures
        text@ == iso8601_text(seconds as int, offset as int),
{
    gix_date::Time { seconds, offset }.format_or_unix(gix_date::time::format::ISO8601)
}

impl Time {
    /// The time as it is shown on a page.
    pub open spec fn text(self) -> Seq<char> {
        iso8601_text(self.seconds as int, self.offset as int)
    }

    /// The time as it is shown on a page.
    pub fn format(&self) -> (text: String)
        ensures
            text@ == self.text(),
    {
        format_iso8601(self.seconds, self.offset)
    }
}

} // verus!
