//! Points in time kept by the game, and their RFC 3339 text.

use vstd::prelude::*;
use crate::lines::opt_view;

verus! {

/// An instant as the game keeps it for the last dialogue: seconds and
/// nanoseconds since the Unix epoch, and the UTC offset, in seconds, at
/// which it is shown.
#[derive(Clone, Copy, Debug, PartialEq, Eq, Structural)]
pub struct DialogTime {
    pub unix_secs: i64,
    pub nanos: u32,
    pub utc_offset_secs: i32,
}

/// The text that chrono's `DateTime::to_rfc3339` writes for the instant
/// shown at the offset; `None` where chrono has no such instant or offset.
pub uninterp spec fn rfc3339_text(unix_secs: i64, nanos: u32, utc_offset_secs: i32) -> Option<Seq<char>>;

/// Builds the chrono date-time (`DateTime::from_timestamp`, then
/// `FixedOffset::east_opt` and `with_timezone`) and calls `to_rfc3339`; the
/// result is named `rfc3339_text` of the three numbers.
#[verifier::external_body]
pub(crate) fn dialog_time_text(t: &DialogTime) -> (text: Option<String>)
    ensures
        opt_view(text) == rfc3339_text(t.unix_secs, t.nanos, t.utc_offset_secs),
{
    match (chrono::FixedOffset::east_opt(t.utc_offset_secs), chrono::DateTime::from_timestamp(t.unix_secs, t.nanos)) {
        (Some(offset), Some(utc)) => Some(utc.with_timezone(&offset).to_rfc3339()),
        _ => None,
    }
}

/// The instant (seconds and nanoseconds since the epoch) that chrono's
/// `DateTime::parse_from_rfc3339` reads from the text; `None` where it
/// refuses the text.
pub uninterp spec fn rfc3339_instant(text: Seq<char>) -> Option<(i64, u32)>;

/// Calls `DateTime::parse_from_rfc3339` and moves the result to the local
/// time zone (`with_timezone(&Local)`). The instant is named
/// `rfc3339_instant` of the text; the local offset depends on the machine's
/// time zone and is left unsaid.
#[verifier::external_body]
pub(crate) fn parse_dialog_time(text: &str) -> (t: Option<DialogTime>)
    ensures
        t is Some <==> rfc3339_instant(text@) is Some,
        t matches Some(d) ==> rfc3339_instant(text@) == Some((d.unix_secs, d.nanos)),
{
    match chrono::DateTime::parse_from_rfc3339(text) {
        Ok(parsed) => {
            let local = parsed.with_timezone(&chrono::Local);
            Some(DialogTime {
                unix_secs: local.timestamp(),
                nanos: local.timestamp_subsec_nanos(),
                utc_offset_secs: local.offset().local_minus_utc(),
            })
        },
        Err(_) => None,
    }
}

} // verus!
