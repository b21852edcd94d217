//! The title line: a notification while it is fresh, else the program's name.
//!
//! The session only stores a notification with the moment it was raised. How
//! long it shows is decided here, by whoever draws the title.

use crate::utils::clock::{read_clock, Moment};
use vstd::prelude::*;
use vstd::string::StringExecFns;

verus! {

/// Seconds for which a notification shows.
pub const NOTIFICATION_TIMEOUT: u64 = 3;

/// The title shown when there is nothing to report.
pub const AUTH_TITLE: &'static str = " Auth ";

/// What is reported after a copy.
pub const COPIED_MSG: &'static str = "Copied!";

/// A message as it stands in the title: with a space on either side.
pub open spec fn framed(message: Seq<char>) -> Seq<char> {
    " "@ + message + " "@
}

/// What shows of a notification at `now`: the framed message while fewer
/// than three seconds have passed since it was raised, nothing afterwards
/// and nothing where there is no notification.
pub open spec fn shown_at(
    notification: Option<(Seq<char>, Moment)>,
    now: Moment,
) -> Option<Seq<char>> {
    match notification {
        Some((message, time)) => if now.within(time, NOTIFICATION_TIMEOUT) {
            Some(framed(message))
        } else {
            None
        },
        None => None,
    }
}

/// The title at `now`: the error notification if it shows, else the report
/// of a copy if that shows, else the program's name.
pub open spec fn title_at(
    error_message: Option<(Seq<char>, Moment)>,
    copy_notification_time: Option<Moment>,
    now: Moment,
) -> Seq<char> {
    match shown_at(error_message, now) {
        Some(title) => title,
        None => match copy_notification_time {
            Some(time) => match shown_at(Some((COPIED_MSG@, time)), now) {
                Some(title) => title,
                None => AUTH_TITLE@,
            },
            None => AUTH_TITLE@,
        },
    }
}

/// The error notification, with the texts of its message, as a value.
pub open spec fn message_view(
    error_message: Option<(String, Moment)>,
) -> Option<(Seq<char>, Moment)> {
    match error_message {
        Some((message, time)) => Some((message@, time)),
        None => None,
    }
}

/// What shows at `now` of a notification raised at `time`, if it still shows.
pub fn check_notification_time(
    notification: Option<(&str, Moment)>,
    now: Moment,
) -> (shown: Option<String>)
    ensures
        match shown {
            Some(title) => notification matches Some((message, time)) && shown_at(
                Some((message@, time)),
                now,
            ) == Some(title@),
            None => notification matches Some((message, time)) ==> shown_at(
                Some((message@, time)),
                now,
            ) is None,
        },
{
    match notification {
        Some((message, time)) => {
            if now.is_within(&time, NOTIFICATION_TIMEOUT) {
                let title = String::from_str(" ").concat(message).concat(" ");
                assert(title@ =~= framed(message@));
                Some(title)
            } else {
                None
            }
        },
        None => None,
    }
}

/// The title to draw at the moment `now`.
pub fn get_notification_title_at(
    error_message: &Option<(String, Moment)>,
    copy_notification_time: Option<Moment>,
    now: Moment,
) -> (title: String)
    ensures
        title@ == title_at(message_view(*error_message), copy_notification_time, now),
{
    let error = match error_message {
        Some((message, time)) => Some((message.as_str(), *time)),
        None => None,
    };
    if let Some(title) = check_notification_time(error, now) {
        return title;
    }
    let copied = match copy_notification_time {
        Some(time) => Some((COPIED_MSG, time)),
        None => None,
    };
    if let Some(title) = check_notification_time(copied, now) {
        return title;
    }
    String::from_str(AUTH_TITLE)
}

/// The title to draw now: that of the time the clock shows, or of the epoch
/// where the clock stands before it.
pub fn get_notification_title(
    error_message: &Option<(String, Moment)>,
    copy_notification_time: Option<Moment>,
) -> (title: String)
    ensures
        exists|now: Moment|
            title@ == title_at(message_view(*error_message), copy_notification_time, now),
{
    let now = match read_clock() {
        Some(moment) => moment,
        None => Moment::from_secs(0),
    };
    let title = get_notification_title_at(error_message, copy_notification_time, now);
    assert(title@ == title_at(message_view(*error_message), copy_notification_time, now));
    title
}

} // verus!
