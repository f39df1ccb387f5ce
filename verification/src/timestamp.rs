//! Instants on the UTC time line, as the calendar library counts them.

use std::fmt::Write;
use vstd::prelude::*;

verus! {

/// First second that the calendar can name: midnight before the first day of year -262143.
pub const MIN_SECS: i64 = -8_334_601_228_800;

/// Last second that the calendar can name: the one before midnight after the last day of
/// year 262142.
pub const MAX_SECS: i64 = 8_210_266_876_799;

/// Nanoseconds in a second.
pub const NANOS_PER_SEC: u32 = 1_000_000_000;

/// Seconds in a day without a leap second.
pub const SECS_PER_DAY: i64 = 86_400;

/// Whether a count of seconds since 1970-01-01T00:00:00Z and a count of nanoseconds
/// within that second name an instant of the calendar. A count of nanoseconds of a
/// thousand million or more stands for a leap second, which may only follow the 59th
/// second of a minute.
pub open spec fn representable(secs: int, nanos: int) -> bool {
    &&& MIN_SECS <= secs <= MAX_SECS
    &&& 0 <= nanos < 2 * NANOS_PER_SEC
    &&& (nanos >= NANOS_PER_SEC ==> secs % 60 == 59)
}

/// An instant in UTC: whole seconds since the Unix epoch, and nanoseconds into that second.
#[derive(Clone, Copy, Debug, PartialEq, Eq, Structural)]
pub struct Timestamp {
    secs: i64,
    nanos: u32,
}

impl Timestamp {
    /// Whole seconds since the Unix epoch.
    pub closed spec fn spec_secs(self) -> int {
        self.secs as int
    }

    /// Nanoseconds into the second.
    pub closed spec fn spec_nanos(self) -> int {
        self.nanos as int
    }

    /// Whether the instant was read from a clock: it names an instant of the calendar
    /// outside any leap second.
    pub open spec fn is_clock_reading(self) -> bool {
        self.wf() && self.spec_nanos() < NANOS_PER_SEC
    }

    /// Every timestamp that executable code holds names an instant of the calendar.
    #[verifier::type_invariant]
    pub open spec fn wf(self) -> bool {
        representable(self.spec_secs(), self.spec_nanos())
    }

    /// Second of the day, from 0 to 86399.
    pub open spec fn second_of_day(self) -> int {
        self.spec_secs() % (SECS_PER_DAY as int)
    }

    /// Whether `self` comes strictly after `other`.
    pub open spec fn spec_later_than(self, other: Timestamp) -> bool {
        self.spec_secs() > other.spec_secs() || (self.spec_secs() == other.spec_secs()
            && self.spec_nanos() > other.spec_nanos())
    }

    /// The timestamp of the given counts, where they name an instant of the calendar.
    pub fn new(secs: i64, nanos: u32) -> (r: Option<Timestamp>)
        ensures
            r == instant_of((secs as int, nanos as int)),
            r matches Some(t) ==> t.spec_secs() == secs && t.spec_nanos() == nanos && t.wf(),
    {
        if secs < MIN_SECS || secs > MAX_SECS || nanos >= 2 * NANOS_PER_SEC {
            return None;
        }
        if nanos >= NANOS_PER_SEC {
            let since_min: i64 = secs - MIN_SECS;
            assert(since_min % 60 == secs % 60) by {
                assert(MIN_SECS as int == -138_910_020_480 * 60);
                vstd::arithmetic::div_mod::lemma_mod_multiples_vanish(138_910_020_480, secs as int, 60);
            }
            if since_min % 60 != 59 {
                return None;
            }
        }
        Some(Timestamp { secs, nanos })
    }

    /// Whole seconds since the Unix epoch.
    pub fn secs(&self) -> (r: i64)
        ensures
            r == self.spec_secs(),
    {
        self.secs
    }

    /// Nanoseconds into the second; a thousand million or more inside a leap second.
    pub fn subsec_nanos(&self) -> (r: u32)
        ensures
            r == self.spec_nanos(),
    {
        self.nanos
    }

    /// Whether this instant comes strictly after `other`.
    pub fn later_than(&self, other: &Timestamp) -> (r: bool)
        ensures
            r == self.spec_later_than(*other),
    {
        self.secs > other.secs || (self.secs == other.secs && self.nanos > other.nanos)
    }
}

/// A span of time that is not negative: whole seconds and nanoseconds below one second.
#[derive(Clone, Copy, Debug, PartialEq, Eq, Structural)]
pub struct Delay {
    pub secs: u64,
    pub nanos: u32,
}

impl Delay {
    /// The nanoseconds stay below one second.
    pub open spec fn wf(self) -> bool {
        self.nanos < NANOS_PER_SEC
    }

    /// The whole span in nanoseconds.
    pub open spec fn total_nanos(self) -> int {
        self.secs * NANOS_PER_SEC + self.nanos
    }
}

/// The delay that lasts the given number of nanoseconds.
pub open spec fn delay_of_nanos(total: int) -> Delay {
    Delay { secs: (total / NANOS_PER_SEC as int) as u64, nanos: (total % NANOS_PER_SEC as int) as u32 }
}

/// The seconds that the calendar library adds to a difference of two instants on
/// account of leap seconds. It counts none but those that the two instants themselves
/// stand in, and decides by their seconds of the day alone.
pub open spec fn leap_shift(a: Timestamp, b: Timestamp) -> int {
    if a.second_of_day() > b.second_of_day() && b.spec_nanos() >= NANOS_PER_SEC {
        1
    } else if a.second_of_day() < b.second_of_day() && a.spec_nanos() >= NANOS_PER_SEC {
        -1
    } else {
        0
    }
}

/// Nanoseconds from `b` to `a` as the calendar library counts them; negative where it
/// takes `a` to come first.
pub open spec fn signed_nanos_between(a: Timestamp, b: Timestamp) -> int {
    (a.spec_secs() - b.spec_secs() + leap_shift(a, b)) * NANOS_PER_SEC + (a.spec_nanos()
        - b.spec_nanos())
}

/// Time left at `now` until `fire_at`: none where `fire_at` is not later than `now`, and
/// none where the calendar library counts no time between them.
pub open spec fn delay_until(fire_at: Timestamp, now: Timestamp) -> Option<Delay> {
    if fire_at.spec_later_than(now) && signed_nanos_between(fire_at, now) > 0 {
        Some(delay_of_nanos(signed_nanos_between(fire_at, now)))
    } else {
        None
    }
}

/// The text that `chrono::DateTime::<Utc>::to_rfc3339` writes for the instant of the
/// given seconds and nanoseconds.
pub uninterp spec fn rfc3339_text(secs: int, nanos: int) -> Seq<char>;

/// What `chrono::DateTime::parse_from_rfc3339` reads from a text, moved to UTC: the
/// seconds and nanoseconds of the instant, or nothing where the text is refused.
pub uninterp spec fn rfc3339_instant(text: Seq<char>) -> Option<(int, int)>;

/// What `chrono::NaiveDateTime::parse_from_str` reads from a text under a format, taken
/// as a time in UTC: the seconds and nanoseconds of the instant, or the text of the
/// error.
pub uninterp spec fn naive_datetime_parse(text: Seq<char>, format: Seq<char>) -> Result<
    (int, int),
    Seq<char>,
>;

/// The text that `chrono::DateTime::<Utc>::format` writes for the instant of the given
/// seconds and nanoseconds under a format, or nothing where writing it fails, as it
/// does under a format that the calendar library does not know.
pub uninterp spec fn strftime_text(secs: int, nanos: int, format: Seq<char>) -> Option<Seq<char>>;

/// An optional text as a contract sees it.
pub open spec fn text_view(text: Option<String>) -> Option<Seq<char>> {
    match text {
        Some(s) => Some(s@),
        None => None,
    }
}

/// A pair of counts as a contract sees it.
pub open spec fn counts_of(parts: Option<(i64, u32)>) -> Option<(int, int)> {
    match parts {
        Some(p) => Some((p.0 as int, p.1 as int)),
        None => None,
    }
}

/// A pair of counts, or the words of a refusal, as a contract sees them.
pub open spec fn parsed_counts_of(parsed: Result<(i64, u32), String>) -> Result<
    (int, int),
    Seq<char>,
> {
    match parsed {
        Ok(p) => Ok((p.0 as int, p.1 as int)),
        Err(e) => Err(e@),
    }
}

/// Calls `chrono::Utc::now` and hands out the reading's seconds and nanoseconds. The
/// reading names an instant of the calendar and is never inside a leap second, since it
/// is made from a `std::time::Duration` since the Unix epoch. The call panics on a
/// machine whose clock stands before the epoch.
#[verifier::external_body]
fn clock_reading() -> (r: (i64, u32))
    ensures
        representable(r.0 as int, r.1 as int),
        r.1 < NANOS_PER_SEC,
{
    let t = chrono::Utc::now();
    (t.timestamp(), t.timestamp_subsec_nanos())
}

/// Calls `chrono::DateTime::signed_duration_since` on the two instants and hands out the
/// difference as `TimeDelta::num_seconds` and `TimeDelta::subsec_nanos` give it: whole
/// seconds rounded towards zero, and a rest of the same sign. The two together are the
/// difference of the counts of seconds and nanoseconds, shifted by a second where one of
/// the instants stands in a leap second.
#[verifier::external_body]
fn signed_duration_parts(a: &Timestamp, b: &Timestamp) -> (r: (i64, i32))
    requires
        a.wf(),
        b.wf(),
    ensures
        r.0 * NANOS_PER_SEC + r.1 == signed_nanos_between(*a, *b),
        -(NANOS_PER_SEC as int) < r.1 < NANOS_PER_SEC,
        r.0 > 0 ==> r.1 >= 0,
        r.0 < 0 ==> r.1 <= 0,
{
    let x = chrono::DateTime::from_timestamp(a.secs, a.nanos).unwrap();
    let y = chrono::DateTime::from_timestamp(b.secs, b.nanos).unwrap();
    let d = x.signed_duration_since(y);
    (d.num_seconds(), d.subsec_nanos())
}

/// Calls `chrono::DateTime::<Utc>::to_rfc3339` on the instant.
#[verifier::external_body]
fn rfc3339_of(t: &Timestamp) -> (r: String)
    requires
        t.wf(),
    ensures
        r@ == rfc3339_text(t.spec_secs(), t.spec_nanos()),
{
    chrono::DateTime::from_timestamp(t.secs, t.nanos).unwrap().to_rfc3339()
}

/// Calls `chrono::DateTime::<Utc>::format` on the instant and writes what it gives into
/// a text; a failure to write is handed out as nothing.
#[verifier::external_body]
fn strftime_of(t: &Timestamp, format: &str) -> (r: Option<String>)
    requires
        t.wf(),
    ensures
        text_view(r) == strftime_text(t.spec_secs(), t.spec_nanos(), format@),
{
    let at = chrono::DateTime::from_timestamp(t.secs, t.nanos).unwrap();
    let mut text = String::new();
    match write!(text, "{}", at.format(format)) {
        Ok(_) => Some(text),
        Err(_) => None,
    }
}

/// Calls `chrono::DateTime::parse_from_rfc3339` and moves the result to UTC.
#[verifier::external_body]
fn rfc3339_parts(text: &str) -> (r: Option<(i64, u32)>)
    ensures
        counts_of(r) == rfc3339_instant(text@),
{
    match chrono::DateTime::parse_from_rfc3339(text) {
        Ok(t) => {
            let u = t.with_timezone(&chrono::Utc);
            Some((u.timestamp(), u.timestamp_subsec_nanos()))
        },
        Err(_) => None,
    }
}

/// Calls `chrono::NaiveDateTime::parse_from_str` and takes the result as a time in UTC.
/// The counts handed out are those of a `DateTime`, which `DateTime::from_timestamp` is
/// documented to take back: they name an instant of the calendar.
#[verifier::external_body]
fn naive_parts(text: &str, format: &str) -> (r: Result<(i64, u32), String>)
    ensures
        parsed_counts_of(r) == naive_datetime_parse(text@, format@),
        r matches Ok(p) ==> representable(p.0 as int, p.1 as int),
{
    match chrono::NaiveDateTime::parse_from_str(text, format) {
        Ok(n) => {
            let u = chrono::DateTime::<chrono::Utc>::from_naive_utc_and_offset(n, chrono::Utc);
            Ok((u.timestamp(), u.timestamp_subsec_nanos()))
        },
        Err(e) => Err(e.to_string()),
    }
}

/// The instant that a parsed pair of counts names, where it names one.
pub open spec fn instant_of(parts: (int, int)) -> Option<Timestamp> {
    if representable(parts.0, parts.1) {
        Some(timestamp_of(parts.0, parts.1))
    } else {
        None
    }
}

/// The timestamp with the given counts.
pub closed spec fn timestamp_of(secs: int, nanos: int) -> Timestamp {
    Timestamp { secs: secs as i64, nanos: nanos as u32 }
}

/// A timestamp is known by its two counts: made anew from them, it is the same.
pub proof fn lemma_timestamp_of(t: Timestamp)
    ensures
        timestamp_of(t.spec_secs(), t.spec_nanos()) == t,
        t.wf() ==> instant_of((t.spec_secs(), t.spec_nanos())) == Some(t),
{
}

/// The counts of a timestamp made from representable counts are those counts, and the
/// timestamp names an instant of the calendar.
pub proof fn lemma_timestamp_of_counts(secs: int, nanos: int)
    requires
        representable(secs, nanos),
    ensures
        timestamp_of(secs, nanos).spec_secs() == secs,
        timestamp_of(secs, nanos).spec_nanos() == nanos,
        timestamp_of(secs, nanos).wf(),
{
}

/// What reading a text as RFC 3339 gives: an instant, or nothing.
pub open spec fn parse_rfc3339_spec(text: Seq<char>) -> Option<Timestamp> {
    match rfc3339_instant(text) {
        Some(parts) => instant_of(parts),
        None => None,
    }
}

/// What reading a text under a format gives: an instant, or the words of the refusal.
pub open spec fn parse_naive_utc_spec(text: Seq<char>, format: Seq<char>) -> Result<
    Timestamp,
    Seq<char>,
> {
    match naive_datetime_parse(text, format) {
        Ok(parts) => Ok(timestamp_of(parts.0, parts.1)),
        Err(detail) => Err(detail),
    }
}

/// A parsed instant, or the words of a refusal, as a contract sees them.
pub open spec fn parsed_instant_of(parsed: Result<Timestamp, String>) -> Result<
    Timestamp,
    Seq<char>,
> {
    match parsed {
        Ok(t) => Ok(t),
        Err(e) => Err(e@),
    }
}

impl Timestamp {
    /// The present instant, by the system clock.
    pub fn now() -> (r: Timestamp)
        ensures
            r.is_clock_reading(),
    {
        let (secs, nanos) = clock_reading();
        Timestamp { secs, nanos }
    }

    /// Time left at `now` until this instant.
    pub fn delay_from(&self, now: &Timestamp) -> (r: Option<Delay>)
        ensures
            r == delay_until(*self, *now),
            r matches Some(d) ==> d.wf() && d.total_nanos() == signed_nanos_between(*self, *now),
    {
        proof {
            use_type_invariant(self);
            use_type_invariant(now);
        }
        if !self.later_than(now) {
            return None;
        }
        let (s, n) = signed_duration_parts(self, now);
        if s > 0 || (s == 0 && n > 0) {
            let d = Delay { secs: s as u64, nanos: n as u32 };
            proof {
                let total = signed_nanos_between(*self, *now);
                vstd::arithmetic::div_mod::lemma_fundamental_div_mod_converse(
                    total,
                    NANOS_PER_SEC as int,
                    s as int,
                    n as int,
                );
            }
            Some(d)
        } else {
            None
        }
    }

    /// This instant written under a format of the calendar library; nothing where the
    /// library cannot write it under that format.
    pub fn format(&self, format: &str) -> (r: Option<String>)
        ensures
            text_view(r) == strftime_text(self.spec_secs(), self.spec_nanos(), format@),
    {
        proof {
            use_type_invariant(self);
        }
        strftime_of(self, format)
    }

    /// This instant as RFC 3339 text.
    pub fn to_rfc3339(&self) -> (r: String)
        ensures
            r@ == rfc3339_text(self.spec_secs(), self.spec_nanos()),
    {
        proof {
            use_type_invariant(self);
        }
        rfc3339_of(self)
    }

    /// Reads a date and time without a zone under a format of the calendar library, and
    /// takes it as a time in UTC.
    pub fn parse_naive_utc(text: &str, format: &str) -> (r: Result<Timestamp, String>)
        ensures
            parsed_instant_of(r) == parse_naive_utc_spec(text@, format@),
            r matches Ok(t) ==> t.wf(),
    {
        match naive_parts(text, format) {
            Ok((secs, nanos)) => Ok(Timestamp { secs, nanos }),
            Err(e) => Err(e),
        }
    }

    /// Reads RFC 3339 text.
    pub fn parse_rfc3339(text: &str) -> (r: Option<Timestamp>)
        ensures
            r == parse_rfc3339_spec(text@),
    {
        match rfc3339_parts(text) {
            Some((secs, nanos)) => Timestamp::new(secs, nanos),
            None => None,
        }
    }
}

/// Between two instants of which neither stands in a leap second, the time left is the
/// plain difference of the counts.
pub proof fn lemma_delay_without_leap_seconds(fire_at: Timestamp, now: Timestamp)
    requires
        fire_at.wf(),
        now.wf(),
        fire_at.spec_nanos() < NANOS_PER_SEC,
        now.spec_nanos() < NANOS_PER_SEC,
    ensures
        delay_until(fire_at, now) == if fire_at.spec_later_than(now) {
            Some(
                delay_of_nanos(
                    (fire_at.spec_secs() - now.spec_secs()) * NANOS_PER_SEC + (fire_at.spec_nanos()
                        - now.spec_nanos()),
                ),
            )
        } else {
            None
        },
{
}

/// No time is left until an instant that is not later than the present one.
pub proof fn lemma_no_delay_once_due(fire_at: Timestamp, now: Timestamp)
    requires
        !fire_at.spec_later_than(now),
    ensures
        delay_until(fire_at, now) is None,
{
}

} // verus!
