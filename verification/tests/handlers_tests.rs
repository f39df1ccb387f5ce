use reminder_bot::cron_syntax::{
    check_cron_expression, count_fields, verdict, FIELDS, SIX_FIELDS_EXPECTED,
};
use reminder_bot::handlers::{
    drop_reply, handle_commands, handle_remind_cron, handle_remind_single,
    handle_remind_single_at, parts_of, remind_cron_from_captures, remind_single_from_captures,
    remind_single_from_parsed, Command, CommandAction, Outcome, Reply, DUE_TIME_FORMAT,
    REMIND_CRON_PATTERN, REMIND_SINGLE_PATTERN,
};
use reminder_bot::models::Reminder;
use reminder_bot::scheduler::{CronJob, JobAction, Scheduler};
use reminder_bot::timestamp::{Delay, Timestamp};
use std::str::FromStr;

fn ts(secs: i64, nanos: u32) -> Timestamp {
    Timestamp::new(secs, nanos).unwrap()
}

fn groups(parts: &[Option<&str>]) -> Option<Vec<Option<String>>> {
    Some(parts.iter().map(|p| p.map(|s| s.to_string())).collect())
}

#[test]
fn command_forms_are_the_documented_ones() {
    assert_eq!(REMIND_CRON_PATTERN, r#"/remindcron\s+"([^"]+)"\s+(.+)"#);
    assert_eq!(REMIND_SINGLE_PATTERN, r#"/remindsingle\s+"([^"]+)"\s+(.+)"#);
    assert_eq!(DUE_TIME_FORMAT, "%d.%m.%Y %H:%M:%S");
}

#[test]
fn check_cron_expression_goes_by_the_cron_library() {
    assert_eq!(check_cron_expression("0 0 12 * * *"), Ok(()));
    assert_eq!(check_cron_expression("*/10 0-5 1,2 ? * Mon-Fri"), Ok(()));
    for bad in ["", "* * * * *", "a b c d e f", "0 0 24 * * *"] {
        assert_eq!(
            check_cron_expression(bad),
            Err(cron::Schedule::from_str(bad).unwrap_err().to_string())
        );
    }
}

#[test]
fn start_is_answered_with_the_help() {
    assert_eq!(handle_commands(Command::Start, 5), CommandAction::Answer(Reply::Help));
}

#[test]
fn drop_deletes_the_reminders_of_the_chat() {
    assert_eq!(handle_commands(Command::Drop, 5), CommandAction::DropAll { chat_id: 5 });
    assert_eq!(drop_reply(3), Reply::Deleted(3));
    assert_eq!(drop_reply(0), Reply::Deleted(0));
}

#[test]
fn cron_command_schedules_a_recurring_reminder() {
    let mut s = Scheduler::new();
    let r = handle_remind_cron("/remindcron \"0 0 12 * * *\" Lunch!", 42, &mut s);
    assert_eq!(
        r,
        Ok(Outcome::Scheduled {
            reminder: Reminder::new_cron(42, "Lunch!".to_string(), "0 0 12 * * *".to_string()),
            action: JobAction::Register {
                chat_id: 42,
                message: "Lunch!".to_string(),
                cron_pattern: "0 0 12 * * *".to_string(),
            },
            reply: Reply::CronSet,
        })
    );
    assert_eq!(s.job_count(), 1);
    assert_eq!(
        s.job(0),
        Some(&CronJob {
            chat_id: 42,
            message: "Lunch!".to_string(),
            cron_pattern: "0 0 12 * * *".to_string(),
        })
    );
}

#[test]
fn cron_command_with_a_bad_expression_schedules_nothing() {
    let mut s = Scheduler::new();
    let r = handle_remind_cron("/remindcron \"* * * * *\" five fields", 42, &mut s);
    let words = cron::Schedule::from_str("* * * * *").unwrap_err().to_string();
    assert_eq!(r, Ok(Outcome::Answer(Reply::CronInvalid(words))));
    assert_eq!(s.job_count(), 0);
}

#[test]
fn cron_command_of_another_form_is_answered_with_its_usage() {
    let mut s = Scheduler::new();
    for text in [
        "",
        "/remindcron",
        "/remindcron 0 0 12 * * * Lunch!",
        "/remindcron \"0 0 12 * * *\"",
        "/remindcron \"0 0 12 * * *\" ",
        "/remindcron \"\" Lunch!",
        "/remindcron\"0 0 12 * * *\" Lunch!",
        "/remindsingle \"0 0 12 * * *\" Lunch!",
    ] {
        assert_eq!(handle_remind_cron(text, 1, &mut s), Ok(Outcome::Answer(Reply::CronUsage)), "{}", text);
    }
    assert_eq!(s.job_count(), 0);
}

#[test]
fn message_ends_with_its_line() {
    let mut s = Scheduler::new();
    let r = handle_remind_cron("say /remindcron   \"0 0 * * * *\"\t first line\nsecond", 1, &mut s);
    match r {
        Ok(Outcome::Scheduled { reminder, .. }) => {
            assert_eq!(reminder, Reminder::new_cron(1, "first line".to_string(), "0 0 * * * *".to_string()));
        }
        other => panic!("{:?}", other),
    }
}

#[test]
fn parts_are_the_second_and_third_group() {
    assert_eq!(parts_of(&None), None);
    assert_eq!(parts_of(&groups(&[])), None);
    assert_eq!(parts_of(&groups(&[Some("all"), Some("a")])), None);
    assert_eq!(parts_of(&groups(&[Some("all"), None, Some("b")])), None);
    assert_eq!(parts_of(&groups(&[Some("all"), Some("a"), None])), None);
    assert_eq!(
        parts_of(&groups(&[None, Some("a"), Some("b"), Some("c")])),
        Some(("a".to_string(), "b".to_string()))
    );
}

#[test]
fn cron_command_from_captures() {
    let mut s = Scheduler::new();
    assert_eq!(remind_cron_from_captures(&None, 1, &mut s), Outcome::Answer(Reply::CronUsage));
    let found = groups(&[Some("x"), Some("0 0 12 * * *"), Some("m")]);
    match remind_cron_from_captures(&found, 1, &mut s) {
        Outcome::Scheduled { reply, .. } => assert_eq!(reply, Reply::CronSet),
        other => panic!("{:?}", other),
    }
    assert_eq!(s.job_count(), 1);
}

#[test]
fn single_command_schedules_a_reminder_in_the_future() {
    let mut s = Scheduler::new();
    let now = ts(1_704_067_130, 0);
    let r = handle_remind_single_at(
        "/remindsingle \"31.12.2023 23:59:00\" Happy New Year!",
        42,
        &now,
        &mut s,
    );
    assert_eq!(
        r,
        Ok(Outcome::Scheduled {
            reminder: Reminder::new_single(42, "Happy New Year!".to_string(), ts(1_704_067_140, 0)),
            action: JobAction::SendAfter {
                chat_id: 42,
                message: "Happy New Year!".to_string(),
                delay: Delay { secs: 10, nanos: 0 },
            },
            reply: Reply::SingleSet,
        })
    );
    assert_eq!(s.job_count(), 0);
}

#[test]
fn single_command_in_the_past_or_present_is_refused() {
    let mut s = Scheduler::new();
    let text = "/remindsingle \"31.12.2023 23:59:00\" Happy New Year!";
    for now in [ts(1_704_067_140, 0), ts(1_704_067_140, 1), ts(1_800_000_000, 0)] {
        assert_eq!(
            handle_remind_single_at(text, 42, &now, &mut s),
            Ok(Outcome::Answer(Reply::SingleInPast))
        );
    }
}

#[test]
fn single_command_with_an_unreadable_time_is_answered_with_the_refusal() {
    let mut s = Scheduler::new();
    let now = ts(0, 0);
    for when in ["2023-12-31 23:59:00", "31.12.2023", "31.13.2023 23:59:00", "tomorrow"] {
        let text = format!("/remindsingle \"{}\" m", when);
        let words = chrono::NaiveDateTime::parse_from_str(when, "%d.%m.%Y %H:%M:%S")
            .unwrap_err()
            .to_string();
        assert_eq!(
            handle_remind_single_at(&text, 42, &now, &mut s),
            Ok(Outcome::Answer(Reply::SingleInvalidTime(words)))
        );
    }
}

#[test]
fn single_command_of_another_form_is_answered_with_its_usage() {
    let mut s = Scheduler::new();
    let now = ts(0, 0);
    for text in ["", "/remindsingle 31.12.2023 23:59:00 m", "/remindcron \"31.12.2023 23:59:00\" m"] {
        assert_eq!(
            handle_remind_single_at(text, 1, &now, &mut s),
            Ok(Outcome::Answer(Reply::SingleUsage))
        );
    }
    assert_eq!(
        remind_single_from_captures(&None, 1, &now, &mut s),
        Outcome::Answer(Reply::SingleUsage)
    );
}

#[test]
fn single_command_from_a_parsed_time() {
    let mut s = Scheduler::new();
    let now = ts(100, 0);
    assert_eq!(
        remind_single_from_parsed(Err("bad".to_string()), "m".to_string(), 1, &now, &mut s),
        Outcome::Answer(Reply::SingleInvalidTime("bad".to_string()))
    );
    assert_eq!(
        remind_single_from_parsed(Ok(ts(100, 0)), "m".to_string(), 1, &now, &mut s),
        Outcome::Answer(Reply::SingleInPast)
    );
    assert_eq!(
        remind_single_from_parsed(Ok(ts(101, 5)), "m".to_string(), 1, &now, &mut s),
        Outcome::Scheduled {
            reminder: Reminder::new_single(1, "m".to_string(), ts(101, 5)),
            action: JobAction::SendAfter {
                chat_id: 1,
                message: "m".to_string(),
                delay: Delay { secs: 1, nanos: 5 },
            },
            reply: Reply::SingleSet,
        }
    );
    assert_eq!(
        remind_single_from_parsed(Ok(ts(86_400, 0)), "m".to_string(), 1, &ts(86_399, 1_900_000_000), &mut s),
        Outcome::Scheduled {
            reminder: Reminder::new_single(1, "m".to_string(), ts(86_400, 0)),
            action: JobAction::Nothing,
            reply: Reply::SingleSet,
        }
    );
}

#[test]
fn single_command_reads_the_clock() {
    let mut s = Scheduler::new();
    let r = handle_remind_single("/remindsingle \"01.01.2999 00:00:00\" far", 8, &mut s);
    match r {
        Ok(Outcome::Scheduled { reminder, action: JobAction::SendAfter { delay, .. }, reply }) => {
            assert_eq!(reminder, Reminder::new_single(8, "far".to_string(), ts(32_472_144_000, 0)));
            assert!(delay.secs > 0);
            assert_eq!(reply, Reply::SingleSet);
        }
        other => panic!("{:?}", other),
    }
    assert_eq!(
        handle_remind_single("/remindsingle \"01.01.2001 00:00:00\" gone", 8, &mut s),
        Ok(Outcome::Answer(Reply::SingleInPast))
    );
}

#[test]
fn fields_are_runs_of_characters_that_are_not_blank() {
    assert_eq!(FIELDS, 6);
    assert_eq!(count_fields(""), 0);
    assert_eq!(count_fields("   \t\n\r "), 0);
    assert_eq!(count_fields("*"), 1);
    assert_eq!(count_fields(" * "), 1);
    assert_eq!(count_fields("0 0 12 * * *"), 6);
    assert_eq!(count_fields("0\t0\n12\r*  *   *"), 6);
    assert_eq!(count_fields("******"), 1);
    assert_eq!(count_fields("0 0 12 * * * 2030"), 7);
    assert_eq!(count_fields("a\u{a0}b c"), 2);
    assert_eq!(count_fields("é ü"), 2);
}

#[test]
fn verdict_asks_for_six_fields_after_the_cron_library() {
    assert_eq!(verdict(Ok(()), "0 0 12 * * *"), Ok(()));
    assert_eq!(verdict(Ok(()), "@daily"), Err(SIX_FIELDS_EXPECTED.to_string()));
    assert_eq!(verdict(Ok(()), "0 0 12 * * * 2030"), Err(SIX_FIELDS_EXPECTED.to_string()));
    assert_eq!(verdict(Err("no".to_string()), "0 0 12 * * *"), Err("no".to_string()));
    assert_eq!(verdict(Err("no".to_string()), "@daily"), Err("no".to_string()));
    assert_eq!(check_cron_expression("@daily"), Err(SIX_FIELDS_EXPECTED.to_string()));
    assert_eq!(
        SIX_FIELDS_EXPECTED,
        "expected six fields: seconds, minutes, hours, day of month, month, day of week"
    );
}

#[test]
fn cron_command_with_a_shorthand_schedules_nothing() {
    let mut s = Scheduler::new();
    let r = handle_remind_cron("/remindcron \"@daily\" every day", 42, &mut s);
    assert_eq!(r, Ok(Outcome::Answer(Reply::CronInvalid(SIX_FIELDS_EXPECTED.to_string()))));
    assert_eq!(s.job_count(), 0);
}
