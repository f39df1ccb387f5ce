//! The line that is logged for a message: when it came, from which chat and user, and
//! what was done with it.

use vstd::prelude::*;
use crate::timestamp::{strftime_text, Timestamp};

verus! {

/// How the time of a log line is written: year, month, day, hours, minutes, seconds.
pub const LOG_TIME_FORMAT: &'static str = "%Y-%m-%d %H:%M:%S";

/// The character of a decimal digit.
pub open spec fn digit_char(d: int) -> char {
    if d == 0 {
        '0'
    } else if d == 1 {
        '1'
    } else if d == 2 {
        '2'
    } else if d == 3 {
        '3'
    } else if d == 4 {
        '4'
    } else if d == 5 {
        '5'
    } else if d == 6 {
        '6'
    } else if d == 7 {
        '7'
    } else if d == 8 {
        '8'
    } else {
        '9'
    }
}

/// A natural number in decimal digits, without leading zeros.
pub open spec fn decimal(n: nat) -> Seq<char>
    decreases n,
{
    if n < 10 {
        seq![digit_char(n as int)]
    } else {
        decimal(n / 10).push(digit_char((n % 10) as int))
    }
}

/// An integer in decimal digits, with a minus sign before a negative one.
pub open spec fn signed_decimal(n: int) -> Seq<char> {
    if n < 0 {
        seq!['-'] + decimal((-n) as nat)
    } else {
        decimal(n as nat)
    }
}

/// The text of one decimal digit.
fn digit_text(d: u64) -> (r: &'static str)
    requires
        d < 10,
    ensures
        r@ == seq![digit_char(d as int)],
{
    proof {
        reveal_strlit("0");
        reveal_strlit("1");
        reveal_strlit("2");
        reveal_strlit("3");
        reveal_strlit("4");
        reveal_strlit("5");
        reveal_strlit("6");
        reveal_strlit("7");
        reveal_strlit("8");
        reveal_strlit("9");
    }
    let r = if d == 0 {
        "0"
    } else if d == 1 {
        "1"
    } else if d == 2 {
        "2"
    } else if d == 3 {
        "3"
    } else if d == 4 {
        "4"
    } else if d == 5 {
        "5"
    } else if d == 6 {
        "6"
    } else if d == 7 {
        "7"
    } else if d == 8 {
        "8"
    } else {
        "9"
    };
    assert(r@ =~= seq![digit_char(d as int)]);
    r
}

/// Writes a number in decimal digits.
pub fn unsigned_text(n: u64) -> (r: String)
    ensures
        r@ == decimal(n as nat),
    decreases n,
{
    if n < 10 {
        String::from_str(digit_text(n))
    } else {
        let mut text = unsigned_text(n / 10);
        text.append(digit_text(n % 10));
        assert(text@ =~= decimal(n as nat));
        text
    }
}

/// Writes an integer in decimal digits, with a minus sign before a negative one.
pub fn signed_text(n: i64) -> (r: String)
    ensures
        r@ == signed_decimal(n as int),
{
    if n < 0 {
        let magnitude: u64 = ((-(n + 1)) as u64) + 1;
        let mut text = String::from_str("-");
        proof {
            reveal_strlit("-");
        }
        let digits = unsigned_text(magnitude);
        text.append(digits.as_str());
        assert(text@ =~= signed_decimal(n as int));
        text
    } else {
        unsigned_text(n as u64)
    }
}

/// The name that a log line gives a user: the user's own, or `unknown`.
pub open spec fn shown_name(username: Option<Seq<char>>) -> Seq<char> {
    match username {
        Some(name) => name,
        None => "unknown"@,
    }
}

/// The time of a log line: the instant under the format of log lines; nothing where
/// the calendar library cannot write it.
pub open spec fn shown_time(now: Timestamp) -> Seq<char> {
    match strftime_text(now.spec_secs(), now.spec_nanos(), LOG_TIME_FORMAT@) {
        Some(text) => text,
        None => Seq::empty(),
    }
}

/// The log line for a message that came at the time written as `time`.
pub open spec fn log_line(
    time: Seq<char>,
    chat_id: i64,
    user_id: u64,
    username: Option<Seq<char>>,
    action: Seq<char>,
) -> Seq<char> {
    "["@ + time + "] chat_id: "@ + signed_decimal(chat_id as int) + ", user_id: "@ + decimal(
        user_id as nat,
    ) + ", username: "@ + shown_name(username) + ", action: "@ + action
}

/// Writes the log line for a message, with the time as it is handed in.
pub fn format_log_with_time(
    time: &str,
    chat_id: i64,
    user_id: u64,
    username: &Option<String>,
    action: &str,
) -> (r: String)
    ensures
        r@ == log_line(time@, chat_id, user_id, crate::timestamp::text_view(*username), action@),
{
    let mut line = String::from_str("[");
    line.append(time);
    line.append("] chat_id: ");
    let chat = signed_text(chat_id);
    line.append(chat.as_str());
    line.append(", user_id: ");
    let user = unsigned_text(user_id);
    line.append(user.as_str());
    line.append(", username: ");
    match username {
        Some(name) => line.append(name.as_str()),
        None => line.append("unknown"),
    }
    line.append(", action: ");
    line.append(action);
    line
}

/// Writes the log line for a message that came at `now`.
pub fn format_log_at(
    now: &Timestamp,
    chat_id: i64,
    user_id: u64,
    username: &Option<String>,
    action: &str,
) -> (r: String)
    ensures
        r@ == log_line(
            shown_time(*now),
            chat_id,
            user_id,
            crate::timestamp::text_view(*username),
            action@,
        ),
{
    match now.format(LOG_TIME_FORMAT) {
        Some(time) => format_log_with_time(time.as_str(), chat_id, user_id, username, action),
        None => {
            let r = format_log_with_time("", chat_id, user_id, username, action);
            proof {
                reveal_strlit("");
                assert(""@ =~= Seq::<char>::empty());
            }
            r
        },
    }
}

/// Writes the log line for a message that comes now, by the system clock. A message
/// without a sender is logged with user 0 and the name `unknown`.
pub fn format_log(chat_id: i64, user_id: u64, username: &Option<String>, action: &str) -> (r:
    String)
    ensures
        exists|now: Timestamp|
            now.is_clock_reading() && r@ == #[trigger] log_line(
                shown_time(now),
                chat_id,
                user_id,
                crate::timestamp::text_view(*username),
                action@,
            ),
{
    let now = Timestamp::now();
    let r = format_log_at(&now, chat_id, user_id, username, action);
    assert(r@ == log_line(
        shown_time(now),
        chat_id,
        user_id,
        crate::timestamp::text_view(*username),
        action@,
    ));
    r
}

} // verus!
