//! The reminder: whom to notify, with what, and when.

use vstd::prelude::*;
use crate::timestamp::Timestamp;

verus! {

/// When a reminder fires.
#[derive(Debug, PartialEq, Eq)]
pub enum Schedule {
    /// Again and again, at the instants of a cron expression.
    Recurring(String),
    /// Once, at an instant.
    OneShot(Timestamp),
}

/// A schedule as a contract sees it.
pub enum ScheduleView {
    Recurring(Seq<char>),
    OneShot(Timestamp),
}

impl View for Schedule {
    type V = ScheduleView;

    open spec fn view(&self) -> ScheduleView {
        match *self {
            Schedule::Recurring(pattern) => ScheduleView::Recurring(pattern@),
            Schedule::OneShot(at) => ScheduleView::OneShot(at),
        }
    }
}

impl Clone for Schedule {
    fn clone(&self) -> (r: Schedule)
        ensures
            r@ == self@,
    {
        match self {
            Schedule::Recurring(pattern) => Schedule::Recurring(pattern.clone()),
            Schedule::OneShot(at) => Schedule::OneShot(*at),
        }
    }
}

/// A request to notify one chat: it has exactly one schedule.
#[derive(Debug, PartialEq, Eq)]
pub struct Reminder {
    pub chat_id: i64,
    pub message: String,
    pub schedule: Schedule,
}

/// A reminder as a contract sees it.
pub struct ReminderView {
    pub chat_id: i64,
    pub message: Seq<char>,
    pub schedule: ScheduleView,
}

impl View for Reminder {
    type V = ReminderView;

    open spec fn view(&self) -> ReminderView {
        ReminderView { chat_id: self.chat_id, message: self.message@, schedule: self.schedule@ }
    }
}

impl Clone for Reminder {
    fn clone(&self) -> (r: Reminder)
        ensures
            r@ == self@,
    {
        Reminder {
            chat_id: self.chat_id,
            message: self.message.clone(),
            schedule: self.schedule.clone(),
        }
    }
}

impl ReminderView {
    pub open spec fn is_recurring(self) -> bool {
        self.schedule is Recurring
    }
}

impl Reminder {
    /// A reminder that fires at every instant of `cron_pattern`.
    pub fn new_cron(chat_id: i64, message: String, cron_pattern: String) -> (r: Reminder)
        ensures
            r@ == (ReminderView {
                chat_id,
                message: message@,
                schedule: ScheduleView::Recurring(cron_pattern@),
            }),
    {
        Reminder { chat_id, message, schedule: Schedule::Recurring(cron_pattern) }
    }

    /// A reminder that fires once, at `due_time`.
    pub fn new_single(chat_id: i64, message: String, due_time: Timestamp) -> (r: Reminder)
        ensures
            r@ == (ReminderView {
                chat_id,
                message: message@,
                schedule: ScheduleView::OneShot(due_time),
            }),
    {
        Reminder { chat_id, message, schedule: Schedule::OneShot(due_time) }
    }

    /// The cron expression, where the reminder recurs.
    pub fn cron_pattern(&self) -> (r: Option<&String>)
        ensures
            match self@.schedule {
                ScheduleView::Recurring(pattern) => r matches Some(p) && p@ == pattern,
                ScheduleView::OneShot(_) => r is None,
            },
    {
        match &self.schedule {
            Schedule::Recurring(pattern) => Some(pattern),
            Schedule::OneShot(_) => None,
        }
    }

    /// The instant, where the reminder fires once.
    pub fn due_time(&self) -> (r: Option<Timestamp>)
        ensures
            match self@.schedule {
                ScheduleView::Recurring(_) => r is None,
                ScheduleView::OneShot(at) => r == Some(at),
            },
    {
        match &self.schedule {
            Schedule::Recurring(_) => None,
            Schedule::OneShot(at) => Some(*at),
        }
    }
}

/// The views of a list of reminders, in order.
pub open spec fn reminder_views(reminders: Seq<Reminder>) -> Seq<ReminderView> {
    reminders.map_values(|r: Reminder| r@)
}

} // verus!
