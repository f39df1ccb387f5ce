use reminder_bot::cron_syntax::SIX_FIELDS_EXPECTED;
use reminder_bot::database::StoreError;
use reminder_bot::models::Reminder;
use reminder_bot::scheduler::{
    plan_one_shot, CronJob, JobAction, Rebuild, ScheduleError, Scheduler,
};
use reminder_bot::timestamp::{Delay, Timestamp};
use std::str::FromStr;

fn ts(secs: i64, nanos: u32) -> Timestamp {
    Timestamp::new(secs, nanos).unwrap()
}

fn cron(chat_id: i64, message: &str, pattern: &str) -> Reminder {
    Reminder::new_cron(chat_id, message.to_string(), pattern.to_string())
}

fn single(chat_id: i64, message: &str, at: Timestamp) -> Reminder {
    Reminder::new_single(chat_id, message.to_string(), at)
}

fn job(chat_id: i64, message: &str, pattern: &str) -> CronJob {
    CronJob { chat_id, message: message.to_string(), cron_pattern: pattern.to_string() }
}

fn register(chat_id: i64, message: &str, pattern: &str) -> JobAction {
    JobAction::Register {
        chat_id,
        message: message.to_string(),
        cron_pattern: pattern.to_string(),
    }
}

fn jobs_of(s: &Scheduler) -> Vec<CronJob> {
    let mut out = Vec::new();
    let mut i = 0;
    while let Some(j) = s.job(i) {
        out.push(job(j.chat_id, &j.message, &j.cron_pattern));
        i += 1;
    }
    assert_eq!(i, s.job_count());
    out
}

fn cron_words(pattern: &str) -> String {
    match cron::Schedule::from_str(pattern) {
        Err(e) => e.to_string(),
        Ok(_) => SIX_FIELDS_EXPECTED.to_string(),
    }
}

#[test]
fn new_scheduler_holds_no_job() {
    let s = Scheduler::new();
    assert_eq!(s.job_count(), 0);
    assert!(s.job(0).is_none());
}

#[test]
fn valid_cron_reminder_is_registered() {
    let mut s = Scheduler::new();
    let now = ts(1_700_000_000, 0);
    let r = s.add_reminder_at(cron(42, "Lunch!", "0 0 12 * * *"), &now);
    assert_eq!(r, Ok(register(42, "Lunch!", "0 0 12 * * *")));
    assert_eq!(jobs_of(&s), vec![job(42, "Lunch!", "0 0 12 * * *")]);
}

#[test]
fn every_valid_expression_is_taken() {
    let valid = [
        "* * * * * *",
        "0 0 12 * * *",
        "*/5 * * * * *",
        "0 30 9 * * Mon-Fri",
        "0 0 0 1 1 *",
        "0,30 * * * * ?",
        "0 0 12 1/2 Jan-Jun ?",
        "  0\t0 12  * *\t* ",
    ];
    let mut s = Scheduler::new();
    let mut n = 0;
    for pattern in valid {
        assert!(cron::Schedule::from_str(pattern).is_ok(), "{}", pattern);
        assert_eq!(s.add_reminder(cron(1, "m", pattern)), Ok(register(1, "m", pattern)));
        n += 1;
        assert_eq!(s.job_count(), n);
        assert_eq!(s.job(n - 1), Some(&job(1, "m", pattern)));
    }
}

#[test]
fn every_invalid_expression_is_refused_and_leaves_the_set() {
    let invalid = [
        "",
        "* * * * *",
        "61 * * * * *",
        "every day",
        "* * * * * * * *",
        "0 0 25 * * *",
        "0 0 12 * * * 2030",
        "@daily",
        "******",
        "0 0 12 * * Mon,Tue Wed",
    ];
    let mut s = Scheduler::new();
    assert!(s.add_reminder(cron(1, "kept", "0 0 12 * * *")).is_ok());
    for pattern in invalid {
        let r = s.add_reminder(cron(2, "m", pattern));
        assert_eq!(r, Err(ScheduleError::InvalidCronExpression(cron_words(pattern))));
        assert_eq!(jobs_of(&s), vec![job(1, "kept", "0 0 12 * * *")]);
    }
}

#[test]
fn past_due_one_shot_is_dropped() {
    let mut s = Scheduler::new();
    let now = ts(1_700_000_000, 500);
    assert_eq!(s.add_reminder_at(single(7, "late", ts(1_699_999_999, 0)), &now), Ok(JobAction::Nothing));
    assert_eq!(s.add_reminder_at(single(7, "late", ts(1_700_000_000, 499)), &now), Ok(JobAction::Nothing));
    assert_eq!(s.add_reminder_at(single(7, "now", now), &now), Ok(JobAction::Nothing));
    assert_eq!(s.job_count(), 0);
}

#[test]
fn one_shot_two_seconds_ahead_is_sent_once_after_two_seconds() {
    let mut s = Scheduler::new();
    let now = ts(1_700_000_000, 250_000_000);
    let r = s.add_reminder_at(single(7, "soon", ts(1_700_000_002, 250_000_000)), &now);
    assert_eq!(
        r,
        Ok(JobAction::SendAfter {
            chat_id: 7,
            message: "soon".to_string(),
            delay: Delay { secs: 2, nanos: 0 },
        })
    );
    assert_eq!(s.job_count(), 0);
}

#[test]
fn one_shot_delay_borrows_from_the_seconds() {
    let now = ts(1_700_000_000, 900_000_000);
    let r = plan_one_shot(3, "m".to_string(), &ts(1_700_000_010, 100_000_000), &now);
    assert_eq!(
        r,
        JobAction::SendAfter {
            chat_id: 3,
            message: "m".to_string(),
            delay: Delay { secs: 9, nanos: 200_000_000 },
        }
    );
    let r = plan_one_shot(3, "m".to_string(), &ts(1_700_000_000, 900_000_001), &now);
    assert_eq!(
        r,
        JobAction::SendAfter { chat_id: 3, message: "m".to_string(), delay: Delay { secs: 0, nanos: 1 } }
    );
}

#[test]
fn one_shot_across_a_leap_second_at_midnight_is_dropped() {
    let r = plan_one_shot(3, "m".to_string(), &ts(86_400, 0), &ts(86_399, 1_900_000_000));
    assert_eq!(r, JobAction::Nothing);
}

#[test]
fn add_reminder_reads_the_clock_for_a_one_shot() {
    let mut s = Scheduler::new();
    let now = Timestamp::now();
    let ahead = ts(now.secs() + 3_600, 0);
    match s.add_reminder(single(9, "later", ahead)) {
        Ok(JobAction::SendAfter { chat_id, message, delay }) => {
            assert_eq!(chat_id, 9);
            assert_eq!(message, "later");
            assert!(delay.secs <= 3_600 && delay.secs >= 3_590);
            assert!(delay.nanos < 1_000_000_000);
        }
        other => panic!("{:?}", other),
    }
    let behind = ts(now.secs() - 1, 0);
    assert_eq!(s.add_reminder(single(9, "gone", behind)), Ok(JobAction::Nothing));
    assert_eq!(s.job_count(), 0);
}

#[test]
fn register_checked_goes_by_the_outcome_handed_in() {
    let mut s = Scheduler::new();
    let r = s.register_checked(Ok(()), 1, "a".to_string(), "0 0 12 * * *".to_string());
    assert_eq!(r, Ok(register(1, "a", "0 0 12 * * *")));
    let r = s.register_checked(Err("no".to_string()), 1, "b".to_string(), "x".to_string());
    assert_eq!(r, Err(ScheduleError::InvalidCronExpression("no".to_string())));
    assert_eq!(jobs_of(&s), vec![job(1, "a", "0 0 12 * * *")]);
}

#[test]
fn reload_replaces_the_job_set_by_the_stored_recurring_reminders() {
    let mut s = Scheduler::new();
    assert!(s.add_reminder(cron(1, "old", "0 0 1 * * *")).is_ok());
    assert!(s.add_reminder(cron(2, "older", "0 0 2 * * *")).is_ok());
    let stored = vec![
        cron(5, "a", "0 0 12 * * *"),
        single(5, "gone", ts(1_000, 0)),
        cron(6, "b", "*/5 * * * * *"),
        cron(5, "a", "0 0 12 * * *"),
    ];
    let rebuild = s.reload(Ok(stored));
    assert_eq!(
        jobs_of(&s),
        vec![job(5, "a", "0 0 12 * * *"), job(6, "b", "*/5 * * * * *"), job(5, "a", "0 0 12 * * *")]
    );
    assert_eq!(
        rebuild,
        Rebuild {
            actions: vec![
                register(5, "a", "0 0 12 * * *"),
                JobAction::Nothing,
                register(6, "b", "*/5 * * * * *"),
                register(5, "a", "0 0 12 * * *"),
            ],
            outcome: Ok(()),
        }
    );
}

#[test]
fn reload_of_an_empty_store_leaves_no_job() {
    let mut s = Scheduler::new();
    assert!(s.add_reminder(cron(1, "old", "0 0 1 * * *")).is_ok());
    assert_eq!(s.reload(Ok(Vec::new())), Rebuild { actions: Vec::new(), outcome: Ok(()) });
    assert_eq!(s.job_count(), 0);
}

#[test]
fn reload_stops_at_the_first_refused_reminder() {
    let mut s = Scheduler::new();
    assert!(s.add_reminder(cron(1, "old", "0 0 1 * * *")).is_ok());
    let stored = vec![
        cron(5, "a", "0 0 12 * * *"),
        cron(6, "bad", "not cron"),
        cron(7, "c", "0 0 13 * * *"),
        cron(8, "worse", ""),
    ];
    let r = s.reload(Ok(stored));
    assert_eq!(
        r,
        Rebuild {
            actions: vec![register(5, "a", "0 0 12 * * *")],
            outcome: Err(ScheduleError::InvalidCronExpression(cron_words("not cron"))),
        }
    );
    assert_eq!(jobs_of(&s), vec![job(5, "a", "0 0 12 * * *")]);
}

#[test]
fn reload_after_a_failed_load_leaves_an_empty_set() {
    let mut s = Scheduler::new();
    assert!(s.add_reminder(cron(1, "old", "0 0 1 * * *")).is_ok());
    let r = s.reload(Err(StoreError::StorageUnavailable("disk".to_string())));
    assert_eq!(
        r,
        Rebuild {
            actions: Vec::new(),
            outcome: Err(ScheduleError::Store(StoreError::StorageUnavailable("disk".to_string()))),
        }
    );
    assert_eq!(s.job_count(), 0);
    let r = s.reload(Err(StoreError::CorruptRecord));
    assert_eq!(r.outcome, Err(ScheduleError::Store(StoreError::CorruptRecord)));
    assert!(r.actions.is_empty());
    assert_eq!(s.job_count(), 0);
}

#[test]
fn reload_schedules_pending_one_shots_again() {
    let mut s = Scheduler::new();
    let now = Timestamp::now();
    let stored = vec![single(4, "ahead", ts(now.secs() + 7_200, 0))];
    let rebuild = s.reload(Ok(stored));
    assert_eq!(rebuild.outcome, Ok(()));
    assert_eq!(rebuild.actions.len(), 1);
    match &rebuild.actions[0] {
        JobAction::SendAfter { chat_id, message, delay } => {
            assert_eq!(*chat_id, 4);
            assert_eq!(message, "ahead");
            assert!(delay.secs <= 7_200 && delay.secs >= 7_190);
        }
        other => panic!("{:?}", other),
    }
    assert_eq!(s.job_count(), 0);
}

#[test]
fn expression_of_another_number_of_fields_is_refused_though_it_parses() {
    let mut s = Scheduler::new();
    for pattern in ["@daily", "@hourly", "0 0 12 * * * 2030", "0 0 12 * * * *"] {
        assert!(cron::Schedule::from_str(pattern).is_ok(), "{}", pattern);
        assert_eq!(
            s.add_reminder(cron(1, "m", pattern)),
            Err(ScheduleError::InvalidCronExpression(SIX_FIELDS_EXPECTED.to_string()))
        );
    }
    assert_eq!(s.job_count(), 0);
}

#[test]
fn failed_registration_takes_the_job_out_again() {
    let mut s = Scheduler::new();
    assert!(s.add_reminder(cron(1, "a", "0 0 1 * * *")).is_ok());
    assert!(s.add_reminder(cron(2, "b", "0 0 2 * * *")).is_ok());
    assert!(s.add_reminder(cron(3, "c", "0 0 3 * * *")).is_ok());
    let e = s.registration_failed(2, "context is down".to_string());
    assert_eq!(e, ScheduleError::ScheduleUnavailable("context is down".to_string()));
    assert_eq!(jobs_of(&s), vec![job(1, "a", "0 0 1 * * *"), job(2, "b", "0 0 2 * * *")]);
    let e = s.registration_failed(5, "again".to_string());
    assert_eq!(e, ScheduleError::ScheduleUnavailable("again".to_string()));
    assert_eq!(s.job_count(), 2);
    let _ = s.registration_failed(0, String::new());
    assert_eq!(s.job_count(), 0);
}
