//! The durable record of a reminder: what is written for it, and what is read back.

use vstd::prelude::*;
use crate::models::{Reminder, ReminderView, Schedule, ScheduleView};
use crate::timestamp::{parse_rfc3339_spec, rfc3339_text, text_view, Timestamp};

verus! {

/// Why the store could not serve a request.
#[derive(Debug, PartialEq, Eq)]
pub enum StoreError {
    /// The storage could not be opened, read or written; the words are those of the
    /// storage.
    StorageUnavailable(String),
    /// A stored record does not hold exactly one schedule, or holds a due time that
    /// cannot be read.
    CorruptRecord,
}

/// One stored record, column by column. Exactly one of `cron_pattern` and `due_time` is
/// set in a sound record; `due_time` is RFC 3339 text in UTC.
#[derive(Debug, PartialEq, Eq)]
pub struct ReminderRow {
    pub chat_id: i64,
    pub message: String,
    pub cron_pattern: Option<String>,
    pub due_time: Option<String>,
}

/// A stored record as a contract sees it.
pub struct ReminderRowView {
    pub chat_id: i64,
    pub message: Seq<char>,
    pub cron_pattern: Option<Seq<char>>,
    pub due_time: Option<Seq<char>>,
}

impl View for ReminderRow {
    type V = ReminderRowView;

    open spec fn view(&self) -> ReminderRowView {
        ReminderRowView {
            chat_id: self.chat_id,
            message: self.message@,
            cron_pattern: text_view(self.cron_pattern),
            due_time: text_view(self.due_time),
        }
    }
}

/// The text stored for an instant.
pub open spec fn stored_text(at: Timestamp) -> Seq<char> {
    rfc3339_text(at.spec_secs(), at.spec_nanos())
}

/// The record written for a reminder.
pub open spec fn encode_spec(reminder: ReminderView) -> ReminderRowView {
    match reminder.schedule {
        ScheduleView::Recurring(pattern) => ReminderRowView {
            chat_id: reminder.chat_id,
            message: reminder.message,
            cron_pattern: Some(pattern),
            due_time: None,
        },
        ScheduleView::OneShot(at) => ReminderRowView {
            chat_id: reminder.chat_id,
            message: reminder.message,
            cron_pattern: None,
            due_time: Some(stored_text(at)),
        },
    }
}

/// The reminder read from a record; none where the record is corrupt.
pub open spec fn decode_spec(row: ReminderRowView) -> Option<ReminderView> {
    match (row.cron_pattern, row.due_time) {
        (Some(pattern), None) => Some(
            ReminderView {
                chat_id: row.chat_id,
                message: row.message,
                schedule: ScheduleView::Recurring(pattern),
            },
        ),
        (None, Some(text)) => match parse_rfc3339_spec(text) {
            Some(at) => Some(
                ReminderView {
                    chat_id: row.chat_id,
                    message: row.message,
                    schedule: ScheduleView::OneShot(at),
                },
            ),
            None => None,
        },
        _ => None,
    }
}

/// The views of a list of records, in order.
pub open spec fn row_views(rows: Seq<ReminderRow>) -> Seq<ReminderRowView> {
    rows.map_values(|row: ReminderRow| row@)
}

/// Whether every record of a list can be read.
pub open spec fn all_sound(rows: Seq<ReminderRowView>) -> bool {
    forall|i: int| 0 <= i < rows.len() ==> (#[trigger] decode_spec(rows[i])) is Some
}

/// The reminders read from a list of sound records, in order.
pub open spec fn decode_all_spec(rows: Seq<ReminderRowView>) -> Seq<ReminderView> {
    rows.map_values(|row: ReminderRowView| decode_spec(row)->Some_0)
}

/// Whether the text stored for an instant is read back as that instant. It is for the
/// years that RFC 3339 can write, from 0 to 9999.
pub open spec fn reads_back(at: Timestamp) -> bool {
    parse_rfc3339_spec(stored_text(at)) == Some(at)
}

/// Whether the store gives a reminder back as it was.
pub open spec fn storable(reminder: ReminderView) -> bool {
    reminder.schedule matches ScheduleView::OneShot(at) ==> reads_back(at)
}

impl ReminderRow {
    /// The record to write for a reminder.
    pub fn encode(reminder: &Reminder) -> (row: ReminderRow)
        ensures
            row@ == encode_spec(reminder@),
    {
        match &reminder.schedule {
            Schedule::Recurring(pattern) => ReminderRow {
                chat_id: reminder.chat_id,
                message: reminder.message.clone(),
                cron_pattern: Some(pattern.clone()),
                due_time: None,
            },
            Schedule::OneShot(at) => ReminderRow {
                chat_id: reminder.chat_id,
                message: reminder.message.clone(),
                cron_pattern: None,
                due_time: Some(at.to_rfc3339()),
            },
        }
    }

    /// The reminder that a record holds. A record with both schedules, with none, or
    /// with a due time that is no RFC 3339 text is corrupt.
    pub fn decode(&self) -> (r: Result<Reminder, StoreError>)
        ensures
            r is Ok <==> decode_spec(self@) is Some,
            r matches Ok(reminder) ==> Some(reminder@) == decode_spec(self@),
            r matches Err(e) ==> e is CorruptRecord,
    {
        match (&self.cron_pattern, &self.due_time) {
            (Some(pattern), None) => Ok(
                Reminder {
                    chat_id: self.chat_id,
                    message: self.message.clone(),
                    schedule: Schedule::Recurring(pattern.clone()),
                },
            ),
            (None, Some(text)) => match Timestamp::parse_rfc3339(text.as_str()) {
                Some(at) => Ok(
                    Reminder {
                        chat_id: self.chat_id,
                        message: self.message.clone(),
                        schedule: Schedule::OneShot(at),
                    },
                ),
                None => Err(StoreError::CorruptRecord),
            },
            _ => Err(StoreError::CorruptRecord),
        }
    }
}

/// Reads every record of a load. One corrupt record fails the whole load: no part of
/// it is handed out.
pub fn decode_all(rows: &Vec<ReminderRow>) -> (r: Result<Vec<Reminder>, StoreError>)
    ensures
        r is Ok <==> all_sound(row_views(rows@)),
        r matches Ok(reminders) ==> crate::models::reminder_views(reminders@) == decode_all_spec(
            row_views(rows@),
        ),
        r matches Err(e) ==> e is CorruptRecord,
{
    let mut reminders: Vec<Reminder> = Vec::new();
    let mut i: usize = 0;
    while i < rows.len()
        invariant
            0 <= i <= rows.len(),
            reminders.len() == i,
            forall|k: int| 0 <= k < i ==> (#[trigger] decode_spec(rows[k]@)) is Some,
            forall|k: int|
                0 <= k < i ==> Some((#[trigger] reminders[k])@) == decode_spec(rows[k]@),
        decreases rows.len() - i,
    {
        match rows[i].decode() {
            Ok(reminder) => {
                reminders.push(reminder);
            },
            Err(e) => {
                assert(decode_spec(row_views(rows@)[i as int]) is None);
                return Err(e);
            },
        }
        i = i + 1;
    }
    assert(all_sound(row_views(rows@))) by {
        assert forall|k: int| 0 <= k < row_views(rows@).len() implies (#[trigger] decode_spec(
            row_views(rows@)[k],
        )) is Some by {
            assert(decode_spec(rows[k]@) is Some);
        }
    }
    assert(crate::models::reminder_views(reminders@) =~= decode_all_spec(row_views(rows@))) by {
        assert forall|k: int| 0 <= k < reminders.len() implies crate::models::reminder_views(
            reminders@,
        )[k] == decode_all_spec(row_views(rows@))[k] by {
            assert(Some(reminders[k]@) == decode_spec(rows[k]@));
        }
    }
    Ok(reminders)
}

/// Writing a reminder and reading the record gives the reminder back, with its chat,
/// message and schedule, exactly where the reminder recurs or the text stored for its
/// instant is read back as that instant.
pub proof fn lemma_store_round_trip(reminder: ReminderView)
    ensures
        decode_spec(encode_spec(reminder)) == Some(reminder) <==> storable(reminder),
{
}

/// A record written for a recurring reminder is always read back as that reminder.
pub proof fn lemma_recurring_round_trip(reminder: ReminderView)
    requires
        reminder.is_recurring(),
    ensures
        decode_spec(encode_spec(reminder)) == Some(reminder),
{
}

/// Reading the records written for a list of reminders gives the list back, each
/// reminder in its place, none lost and none twice.
pub proof fn lemma_load_after_inserts(reminders: Seq<ReminderView>)
    requires
        forall|i: int| 0 <= i < reminders.len() ==> storable(#[trigger] reminders[i]),
    ensures
        all_sound(reminders.map_values(|r: ReminderView| encode_spec(r))),
        decode_all_spec(reminders.map_values(|r: ReminderView| encode_spec(r))) == reminders,
{
    let rows = reminders.map_values(|r: ReminderView| encode_spec(r));
    assert forall|i: int| 0 <= i < rows.len() implies (#[trigger] decode_spec(rows[i])) == Some(
        reminders[i],
    ) by {
        lemma_store_round_trip(reminders[i]);
    }
    assert(decode_all_spec(rows) =~= reminders);
}

} // verus!
