//! What each chat command leads to: the answer to the chat, and the reminder to
//! schedule and store where the command asks for one.

use vstd::prelude::*;
use crate::models::{Reminder, ReminderView, ScheduleView};
use crate::scheduler::{
    jobs_after_add,
    one_shot_action,
    CronJobView,
    JobAction,
    JobActionView,
    ScheduleError,
    Scheduler,
};
use crate::timestamp::{parse_naive_utc_spec, text_view, Timestamp};
use crate::cron_syntax::cron_refusal;

verus! {

/// The form of the command for a recurring reminder: the word, the cron expression in
/// double quotes, the message.
pub const REMIND_CRON_PATTERN: &'static str = "/remindcron\\s+\"([^\"]+)\"\\s+(.+)";

/// The form of the command for a reminder that fires once: the word, the date and time
/// in double quotes, the message.
pub const REMIND_SINGLE_PATTERN: &'static str = "/remindsingle\\s+\"([^\"]+)\"\\s+(.+)";

/// How the date and time of a reminder that fires once is written: day, month, year,
/// then hours, minutes and seconds, in UTC.
pub const DUE_TIME_FORMAT: &'static str = "%d.%m.%Y %H:%M:%S";

/// What `regex::Regex::new` on a pattern and then `regex::Regex::captures` on a text
/// give: the words of the error where the pattern does not compile; else nothing where
/// the text holds no match; else the groups of the leftmost match, the whole match
/// first, each with the text it captured or nothing where it took no part.
pub uninterp spec fn regex_captures(pattern: Seq<char>, text: Seq<char>) -> Result<
    Option<Seq<Option<Seq<char>>>>,
    Seq<char>,
>;

/// The groups of a match as a contract sees them.
pub open spec fn group_views(groups: Seq<Option<String>>) -> Seq<Option<Seq<char>>> {
    groups.map_values(|group: Option<String>| text_view(group))
}

/// What a search found, as a contract sees it.
pub open spec fn captured_view(captured: Option<Vec<Option<String>>>) -> Option<
    Seq<Option<Seq<char>>>,
> {
    match captured {
        Some(groups) => Some(group_views(groups@)),
        None => None,
    }
}

/// The outcome of a search, as a contract sees it.
pub open spec fn search_view(searched: Result<Option<Vec<Option<String>>>, String>) -> Result<
    Option<Seq<Option<Seq<char>>>>,
    Seq<char>,
> {
    match searched {
        Ok(captured) => Ok(captured_view(captured)),
        Err(words) => Err(words@),
    }
}

/// Compiles the pattern with `regex::Regex::new` and searches the text with
/// `regex::Regex::captures`, copying out what each group of the match captured.
#[verifier::external_body]
fn capture_groups(pattern: &str, text: &str) -> (r: Result<Option<Vec<Option<String>>>, String>)
    ensures
        search_view(r) == regex_captures(pattern@, text@),
{
    match regex::Regex::new(pattern) {
        Err(e) => Err(e.to_string()),
        Ok(re) => Ok(
            re.captures(text).map(
                |found| found.iter().map(|group| group.map(|m| m.as_str().to_string())).collect(),
            ),
        ),
    }
}

/// Searches a text for the leftmost match of a pattern of the regex library and hands
/// out what each group of the match captured, the whole match first. The error holds
/// the words of the regex library on a pattern that does not compile.
pub fn search_command(pattern: &str, text: &str) -> (r: Result<
    Option<Vec<Option<String>>>,
    PatternError,
>)
    ensures
        match regex_captures(pattern@, text@) {
            Err(words) => r matches Err(e) && e.detail@ == words,
            Ok(captured) => r matches Ok(found) && captured_view(found) == captured,
        },
{
    match capture_groups(pattern, text) {
        Err(detail) => Err(PatternError { detail }),
        Ok(found) => Ok(found),
    }
}

/// The two parts of a command that a search found: what stood in the quotes, and the
/// message. There are none where the text held no match.
pub open spec fn command_parts(captured: Option<Seq<Option<Seq<char>>>>) -> Option<
    (Seq<char>, Seq<char>),
> {
    match captured {
        Some(groups) => if groups.len() >= 3 && groups[1] is Some && groups[2] is Some {
            Some((groups[1]->Some_0, groups[2]->Some_0))
        } else {
            None
        },
        None => None,
    }
}

/// The two parts as a contract sees them.
pub open spec fn parts_view(parts: Option<(String, String)>) -> Option<(Seq<char>, Seq<char>)> {
    match parts {
        Some(p) => Some((p.0@, p.1@)),
        None => None,
    }
}

/// Takes the two parts of a command out of what a search found.
pub fn parts_of(captured: &Option<Vec<Option<String>>>) -> (r: Option<(String, String)>)
    ensures
        parts_view(r) == command_parts(captured_view(*captured)),
{
    match captured {
        Some(groups) => {
            if groups.len() < 3 {
                return None;
            }
            assert(group_views(groups@)[1] == text_view(groups@[1]));
            assert(group_views(groups@)[2] == text_view(groups@[2]));
            match (&groups[1], &groups[2]) {
                (Some(quoted), Some(message)) => Some((quoted.clone(), message.clone())),
                _ => None,
            }
        },
        None => None,
    }
}

/// A command of the bot's menu.
#[derive(Clone, Copy, Debug, PartialEq, Eq, Structural)]
pub enum Command {
    Start,
    Drop,
}

/// What the chat is told. The words are chosen where the answer is sent.
#[derive(Debug, PartialEq, Eq)]
pub enum Reply {
    /// How to use the bot.
    Help,
    /// How many reminders of the chat were deleted.
    Deleted(usize),
    /// A recurring reminder was set.
    CronSet,
    /// How to write the command for a recurring reminder.
    CronUsage,
    /// The cron expression is refused, with the words of the refusal.
    CronInvalid(String),
    /// A reminder that fires once was set.
    SingleSet,
    /// How to write the command for a reminder that fires once.
    SingleUsage,
    /// The date and time could not be read, with the words of the calendar library.
    SingleInvalidTime(String),
    /// The date and time are not in the future.
    SingleInPast,
}

/// An answer as a contract sees it.
pub enum ReplyView {
    Help,
    Deleted(usize),
    CronSet,
    CronUsage,
    CronInvalid(Seq<char>),
    SingleSet,
    SingleUsage,
    SingleInvalidTime(Seq<char>),
    SingleInPast,
}

impl View for Reply {
    type V = ReplyView;

    open spec fn view(&self) -> ReplyView {
        match *self {
            Reply::Help => ReplyView::Help,
            Reply::Deleted(count) => ReplyView::Deleted(count),
            Reply::CronSet => ReplyView::CronSet,
            Reply::CronUsage => ReplyView::CronUsage,
            Reply::CronInvalid(words) => ReplyView::CronInvalid(words@),
            Reply::SingleSet => ReplyView::SingleSet,
            Reply::SingleUsage => ReplyView::SingleUsage,
            Reply::SingleInvalidTime(words) => ReplyView::SingleInvalidTime(words@),
            Reply::SingleInPast => ReplyView::SingleInPast,
        }
    }
}

/// What a menu command asks for.
#[derive(Debug, PartialEq, Eq)]
pub enum CommandAction {
    /// Answer the chat; nothing else.
    Answer(Reply),
    /// Delete every stored reminder of the chat, tell the chat how many there were, and
    /// rebuild the job set from what the store then holds.
    DropAll { chat_id: i64 },
}

/// What a reminder command led to.
#[derive(Debug, PartialEq, Eq)]
pub enum Outcome {
    /// No reminder was made: answer the chat.
    Answer(Reply),
    /// The reminder was taken into the schedule: carry out `action`, store `reminder`,
    /// then answer the chat with `reply`.
    Scheduled { reminder: Reminder, action: JobAction, reply: Reply },
}

/// An outcome as a contract sees it.
pub enum OutcomeView {
    Answer(ReplyView),
    Scheduled { reminder: ReminderView, action: JobActionView, reply: ReplyView },
}

impl View for Outcome {
    type V = OutcomeView;

    open spec fn view(&self) -> OutcomeView {
        match *self {
            Outcome::Answer(reply) => OutcomeView::Answer(reply@),
            Outcome::Scheduled { reminder, action, reply } => OutcomeView::Scheduled {
                reminder: reminder@,
                action: action@,
                reply: reply@,
            },
        }
    }
}

/// The command pattern did not compile; the words are those of the regex library.
#[derive(Debug, PartialEq, Eq)]
pub struct PatternError {
    pub detail: String,
}

/// The recurring reminder that a command asks for.
pub open spec fn cron_reminder(chat_id: i64, pattern: Seq<char>, message: Seq<char>) -> ReminderView {
    ReminderView { chat_id, message, schedule: ScheduleView::Recurring(pattern) }
}

/// The reminder that fires once that a command asks for.
pub open spec fn single_reminder(chat_id: i64, fire_at: Timestamp, message: Seq<char>) -> ReminderView {
    ReminderView { chat_id, message, schedule: ScheduleView::OneShot(fire_at) }
}

/// What the command for a recurring reminder leads to, given its two parts: how to
/// write it where there are none; the refusal of the cron expression where it is not
/// accepted; else the reminder, to be registered and stored.
pub open spec fn cron_outcome(parts: Option<(Seq<char>, Seq<char>)>, chat_id: i64) -> OutcomeView {
    match parts {
        None => OutcomeView::Answer(ReplyView::CronUsage),
        Some((pattern, message)) => match cron_refusal(pattern) {
            Some(words) => OutcomeView::Answer(ReplyView::CronInvalid(words)),
            None => OutcomeView::Scheduled {
                reminder: cron_reminder(chat_id, pattern, message),
                action: JobActionView::Register { chat_id, message, cron_pattern: pattern },
                reply: ReplyView::CronSet,
            },
        },
    }
}

/// The job set after the command for a recurring reminder.
pub open spec fn jobs_after_cron_command(
    jobs: Seq<CronJobView>,
    parts: Option<(Seq<char>, Seq<char>)>,
    chat_id: i64,
) -> Seq<CronJobView> {
    match parts {
        None => jobs,
        Some((pattern, message)) => jobs_after_add(jobs, cron_reminder(chat_id, pattern, message)),
    }
}

/// What a date and time that was read leads to at `now`: a refusal where it is not in
/// the future; else the reminder, to be sent once and stored.
pub open spec fn single_outcome_at(
    fire_at: Timestamp,
    message: Seq<char>,
    chat_id: i64,
    now: Timestamp,
) -> OutcomeView {
    if !fire_at.spec_later_than(now) {
        OutcomeView::Answer(ReplyView::SingleInPast)
    } else {
        OutcomeView::Scheduled {
            reminder: single_reminder(chat_id, fire_at, message),
            action: one_shot_action(chat_id, message, fire_at, now),
            reply: ReplyView::SingleSet,
        }
    }
}

/// What the reading of a date and time leads to at `now`.
pub open spec fn single_outcome_of_parsed(
    parsed: Result<Timestamp, Seq<char>>,
    message: Seq<char>,
    chat_id: i64,
    now: Timestamp,
) -> OutcomeView {
    match parsed {
        Err(words) => OutcomeView::Answer(ReplyView::SingleInvalidTime(words)),
        Ok(fire_at) => single_outcome_at(fire_at, message, chat_id, now),
    }
}

/// What the command for a reminder that fires once leads to at `now`, given its two
/// parts.
pub open spec fn single_outcome(
    parts: Option<(Seq<char>, Seq<char>)>,
    chat_id: i64,
    now: Timestamp,
) -> OutcomeView {
    match parts {
        None => OutcomeView::Answer(ReplyView::SingleUsage),
        Some((when, message)) => single_outcome_of_parsed(
            parse_naive_utc_spec(when, DUE_TIME_FORMAT@),
            message,
            chat_id,
            now,
        ),
    }
}

/// What a menu command asks for: `Start` is answered with the help, `Drop` deletes the
/// reminders of the chat.
pub fn handle_commands(cmd: Command, chat_id: i64) -> (r: CommandAction)
    ensures
        cmd == Command::Start ==> r == CommandAction::Answer(Reply::Help),
        cmd == Command::Drop ==> r == (CommandAction::DropAll { chat_id }),
{
    match cmd {
        Command::Start => CommandAction::Answer(Reply::Help),
        Command::Drop => CommandAction::DropAll { chat_id },
    }
}

/// The answer to a chat whose reminders were deleted.
pub fn drop_reply(deleted: usize) -> (r: Reply)
    ensures
        r == Reply::Deleted(deleted),
{
    Reply::Deleted(deleted)
}

/// Handles the command for a recurring reminder, given what the search for its form
/// found in the text.
pub fn remind_cron_from_captures(
    captured: &Option<Vec<Option<String>>>,
    chat_id: i64,
    scheduler: &mut Scheduler,
) -> (r: Outcome)
    ensures
        r@ == cron_outcome(command_parts(captured_view(*captured)), chat_id),
        final(scheduler)@ == jobs_after_cron_command(
            old(scheduler)@,
            command_parts(captured_view(*captured)),
            chat_id,
        ),
{
    match parts_of(captured) {
        None => Outcome::Answer(Reply::CronUsage),
        Some((pattern, message)) => {
            let reminder = Reminder::new_cron(chat_id, message, pattern);
            match scheduler.add_reminder(reminder.clone()) {
                Ok(action) => Outcome::Scheduled { reminder, action, reply: Reply::CronSet },
                Err(ScheduleError::InvalidCronExpression(words)) => Outcome::Answer(
                    Reply::CronInvalid(words),
                ),
                Err(_) => vstd::pervasive::unreached(),
            }
        },
    }
}

/// Handles the command for a recurring reminder.
///
/// The text is searched for the form of the command. A text of another form is
/// answered with how to write it. A cron expression that is not accepted is answered
/// with its refusal, and nothing is scheduled. Else the reminder joins the job set and
/// is handed out to be registered and stored.
pub fn handle_remind_cron(text: &str, chat_id: i64, scheduler: &mut Scheduler) -> (r: Result<
    Outcome,
    PatternError,
>)
    ensures
        match regex_captures(REMIND_CRON_PATTERN@, text@) {
            Err(words) => r matches Err(e) && e.detail@ == words && final(scheduler)@ == old(
                scheduler,
            )@,
            Ok(captured) => r matches Ok(outcome) && outcome@ == cron_outcome(
                command_parts(captured),
                chat_id,
            ) && final(scheduler)@ == jobs_after_cron_command(
                old(scheduler)@,
                command_parts(captured),
                chat_id,
            ),
        },
{
    match search_command(REMIND_CRON_PATTERN, text) {
        Err(e) => Err(e),
        Ok(captured) => Ok(remind_cron_from_captures(&captured, chat_id, scheduler)),
    }
}

/// Handles a date and time that was read for a reminder that fires once, as of `now`.
pub fn remind_single_from_parsed(
    parsed: Result<Timestamp, String>,
    message: String,
    chat_id: i64,
    now: &Timestamp,
    scheduler: &mut Scheduler,
) -> (r: Outcome)
    ensures
        r@ == single_outcome_of_parsed(
            crate::timestamp::parsed_instant_of(parsed),
            message@,
            chat_id,
            *now,
        ),
        final(scheduler)@ == old(scheduler)@,
{
    match parsed {
        Err(words) => Outcome::Answer(Reply::SingleInvalidTime(words)),
        Ok(fire_at) => {
            if !fire_at.later_than(now) {
                return Outcome::Answer(Reply::SingleInPast);
            }
            let reminder = Reminder::new_single(chat_id, message, fire_at);
            match scheduler.add_reminder_at(reminder.clone(), now) {
                Ok(action) => Outcome::Scheduled { reminder, action, reply: Reply::SingleSet },
                Err(_) => vstd::pervasive::unreached(),
            }
        },
    }
}

/// Handles the command for a reminder that fires once, as of `now`, given what the
/// search for its form found in the text.
pub fn remind_single_from_captures(
    captured: &Option<Vec<Option<String>>>,
    chat_id: i64,
    now: &Timestamp,
    scheduler: &mut Scheduler,
) -> (r: Outcome)
    ensures
        r@ == single_outcome(command_parts(captured_view(*captured)), chat_id, *now),
        final(scheduler)@ == old(scheduler)@,
{
    match parts_of(captured) {
        None => Outcome::Answer(Reply::SingleUsage),
        Some((when, message)) => {
            let parsed = Timestamp::parse_naive_utc(when.as_str(), DUE_TIME_FORMAT);
            remind_single_from_parsed(parsed, message, chat_id, now, scheduler)
        },
    }
}

/// Handles the command for a reminder that fires once, as of `now`.
///
/// A text of another form is answered with how to write the command; a date and time
/// that cannot be read, with the refusal; one that is not later than `now`, with that.
/// Else the reminder is handed out to be sent once and stored. The job set is never
/// changed.
pub fn handle_remind_single_at(
    text: &str,
    chat_id: i64,
    now: &Timestamp,
    scheduler: &mut Scheduler,
) -> (r: Result<Outcome, PatternError>)
    ensures
        match regex_captures(REMIND_SINGLE_PATTERN@, text@) {
            Err(words) => r matches Err(e) && e.detail@ == words,
            Ok(captured) => r matches Ok(outcome) && outcome@ == single_outcome(
                command_parts(captured),
                chat_id,
                *now,
            ),
        },
        final(scheduler)@ == old(scheduler)@,
{
    match search_command(REMIND_SINGLE_PATTERN, text) {
        Err(e) => Err(e),
        Ok(captured) => Ok(remind_single_from_captures(&captured, chat_id, now, scheduler)),
    }
}

/// Handles the command for a reminder that fires once, as of the present instant by
/// the system clock: the outcome is that of `handle_remind_single_at` for some reading
/// of the clock.
pub fn handle_remind_single(text: &str, chat_id: i64, scheduler: &mut Scheduler) -> (r: Result<
    Outcome,
    PatternError,
>)
    ensures
        match regex_captures(REMIND_SINGLE_PATTERN@, text@) {
            Err(words) => r matches Err(e) && e.detail@ == words,
            Ok(captured) => r matches Ok(outcome) && exists|now: Timestamp|
                now.is_clock_reading() && outcome@ == #[trigger] single_outcome(
                    command_parts(captured),
                    chat_id,
                    now,
                ),
        },
        final(scheduler)@ == old(scheduler)@,
{
    let now = Timestamp::now();
    handle_remind_single_at(text, chat_id, &now, scheduler)
}

} // verus!
