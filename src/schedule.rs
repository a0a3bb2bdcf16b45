//! The daily schedule: the configured time of day, and how long to sleep
//! until it next comes round.

use vstd::prelude::*;

use chrono::Timelike;

verus! {

/// Seconds in a day.
pub const DAY_SECS: u64 = 86400;

/// The pattern a configured time of day is read with.
pub const TIME_PATTERN: &'static str = "%H:%M";

/// A wall-clock time of day, to the minute.
#[derive(Clone, Copy, Debug, PartialEq, Eq, Structural)]
pub struct TimeOfDay {
    pub hour: u32,
    pub minute: u32,
}

impl TimeOfDay {
    pub open spec fn wf(&self) -> bool {
        self.hour < 24 && self.minute < 60
    }

    /// Seconds from midnight.
    pub open spec fn secs(&self) -> nat {
        (self.hour * 3600 + self.minute * 60) as nat
    }
}

/// A wall-clock time of day, to the second.
#[derive(Clone, Copy, Debug, PartialEq, Eq, Structural)]
pub struct ClockTime {
    pub hour: u32,
    pub minute: u32,
    pub second: u32,
}

impl ClockTime {
    pub open spec fn wf(&self) -> bool {
        self.hour < 24 && self.minute < 60 && self.second < 60
    }

    /// Seconds from midnight.
    pub open spec fn secs(&self) -> nat {
        (self.hour * 3600 + self.minute * 60 + self.second) as nat
    }
}

/// The configured time of day could not be read.
#[derive(Clone, Debug)]
pub struct ScheduleError {
    pub time: String,
}

/// What chrono's `NaiveTime::parse_from_str` reads from `s` with the pattern
/// `pattern`: the hour and minute, or nothing when `s` does not match.
pub uninterp spec fn parsed_time(s: Seq<char>, pattern: Seq<char>) -> Option<(u32, u32)>;

/// `chrono::ParseError`, the error of chrono's parsing functions.
#[verifier::external_type_specification]
#[verifier::external_body]
pub struct ExChronoParseError(chrono::ParseError);

/// Relies on chrono's `NaiveTime::parse_from_str`, read out with `Timelike`'s
/// `hour` (0 to 23) and `minute` (0 to 59).
#[verifier::external_body]
fn parse_time(s: &str, pattern: &str) -> (r: Result<(u32, u32), chrono::ParseError>)
    ensures
        r matches Ok(p) ==> parsed_time(s@, pattern@) == Some(p) && p.0 < 24 && p.1 < 60,
        r is Err ==> parsed_time(s@, pattern@) is None,
{
    chrono::NaiveTime::parse_from_str(s, pattern).map(|t| (t.hour(), t.minute()))
}

/// Relies on chrono's `Local::now`, read out with `Timelike`'s `hour` (0 to
/// 23), `minute` (0 to 59) and `second` (0 to 59). Nothing else is promised.
#[verifier::external_body]
fn local_clock() -> (r: (u32, u32, u32))
    ensures
        r.0 < 24,
        r.1 < 60,
        r.2 < 60,
{
    let now = chrono::Local::now();
    (now.hour(), now.minute(), now.second())
}

/// Reads a configured time of day, `HH:MM`.
pub fn parse_schedule_time(s: &str) -> (r: Result<TimeOfDay, ScheduleError>)
    ensures
        r is Ok <==> parsed_time(s@, TIME_PATTERN@) is Some,
        r matches Ok(t) ==> t.wf() && parsed_time(s@, TIME_PATTERN@) == Some((t.hour, t.minute)),
        r matches Err(e) ==> e.time@ == s@,
{
    match parse_time(s, TIME_PATTERN) {
        Ok((hour, minute)) => Ok(TimeOfDay { hour, minute }),
        Err(_) => Err(ScheduleError { time: String::from_str(s) }),
    }
}

/// The current local time of day.
pub fn local_clock_time() -> (r: ClockTime)
    ensures
        r.wf(),
{
    let (hour, minute, second) = local_clock();
    ClockTime { hour, minute, second }
}

/// Seconds from `now` until `target` next comes round: later today if it is
/// still ahead, else tomorrow. A target equal to now is a day away.
pub open spec fn sleep_secs(now: nat, target: nat) -> nat {
    if target > now {
        (target - now) as nat
    } else {
        (target + DAY_SECS - now) as nat
    }
}

/// How long to sleep from `now` until the next occurrence of `target`.
pub fn seconds_until(now: ClockTime, target: TimeOfDay) -> (r: u64)
    requires
        now.wf(),
        target.wf(),
    ensures
        r == sleep_secs(now.secs(), target.secs()),
        0 < r <= DAY_SECS,
        (now.secs() + r) % (DAY_SECS as int) == target.secs(),
{
    let now_s: u64 = now.hour as u64 * 3600 + now.minute as u64 * 60 + now.second as u64;
    let target_s: u64 = target.hour as u64 * 3600 + target.minute as u64 * 60;
    assert(now_s == now.secs() && now_s < DAY_SECS);
    assert(target_s == target.secs() && target_s < DAY_SECS);
    if target_s > now_s {
        target_s - now_s
    } else {
        target_s + DAY_SECS - now_s
    }
}

/// How long to sleep from the current local time until `target` next comes round.
pub fn next_sleep_seconds(target: TimeOfDay) -> (r: u64)
    requires
        target.wf(),
    ensures
        0 < r <= DAY_SECS,
{
    seconds_until(local_clock_time(), target)
}

/// The sleep is the one delay, of at most a day, after which the clock shows
/// the target: for `now` and `target` seconds from midnight and any `delay`
/// in `1..=DAY_SECS` that reaches `target` from `now`, the sleep is `delay`.
/// A target five minutes ahead is a five-minute sleep, not most of a day.
pub proof fn lemma_sleep_is_the_delay_to_target(now: nat, target: nat, delay: nat)
    requires
        now < DAY_SECS,
        target < DAY_SECS,
        0 < delay <= DAY_SECS,
        (now + delay) % (DAY_SECS as nat) == target,
    ensures
        sleep_secs(now, target) == delay,
{
    if now + delay < DAY_SECS {
        assert((now + delay) % (DAY_SECS as nat) == now + delay);
    } else {
        assert((now + delay) % (DAY_SECS as nat) == now + delay - DAY_SECS);
    }
}

} // verus!
