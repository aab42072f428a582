//! Wall-clock date and time in the device's zone, as the display shows them.

use crate::app::{message_view, DisplayMessage, MessageView};
use vstd::prelude::*;

verus! {

/// Date and time of day in the zone Asia/Shanghai at `secs` seconds after
/// the Unix epoch, as chrono and its zone tables write them: the date as
/// year, month and day with `-` between, the time as hours, minutes and
/// seconds with `:` between. `None` where chrono cannot represent the
/// instant.
pub uninterp spec fn shanghai_clock(secs: int) -> Option<(Seq<char>, Seq<char>)>;

/// A pair of texts that may be missing, as sequences of characters.
pub open spec fn pair_view(texts: Option<(String, String)>) -> Option<(Seq<char>, Seq<char>)> {
    match texts {
        Some((a, b)) => Some((a@, b@)),
        None => None,
    }
}

/// The clock update that publishes a date and a time.
pub open spec fn clock_update(texts: Option<(Seq<char>, Seq<char>)>) -> Option<MessageView> {
    match texts {
        Some((date, time)) => Some(MessageView::UpdateTime(date, time)),
        None => None,
    }
}

/// chrono's `DateTime::from_timestamp`, `DateTime::with_timezone` with
/// `chrono_tz::Asia::Shanghai`, and `DateTime::format` with `%Y-%m-%d` and
/// with `%H:%M:%S`: the instant is built from the seconds (which fails
/// outside chrono's range of dates), moved to the zone and written out. The
/// result depends on the seconds alone.
#[verifier::external_body]
fn local_clock(secs: i64) -> (r: Option<(String, String)>)
    ensures
        pair_view(r) == shanghai_clock(secs as int),
{
    let utc = chrono::DateTime::from_timestamp(secs, 0)?;
    let local = utc.with_timezone(&chrono_tz::Asia::Shanghai);
    Some((local.format("%Y-%m-%d").to_string(), local.format("%H:%M:%S").to_string()))
}

/// The message that publishes the given date and time, if there are any.
pub fn clock_message_from(texts: Option<(String, String)>) -> (r: Option<DisplayMessage>)
    ensures
        message_view(r) == clock_update(pair_view(texts)),
{
    match texts {
        Some((date, time)) => Some(DisplayMessage::UpdateTime(date, time)),
        None => None,
    }
}

/// The clock update for the instant `secs` seconds after the Unix epoch.
pub fn clock_message(secs: i64) -> (r: Option<DisplayMessage>)
    ensures
        message_view(r) == clock_update(shanghai_clock(secs as int)),
{
    clock_message_from(local_clock(secs))
}

} // verus!
