//! Times of day, as the profile stores the moment of its last refresh, and
//! the cooldown between two refreshes of a reader's feed.

use chrono::{NaiveTime, Timelike};
use vstd::prelude::*;

verus! {

/// Minutes that must pass before a reader's feed is fetched anew.
pub const TIMER_MAX: i64 = 20;

/// The seconds and nanoseconds of a valid time of day. A nanosecond count
/// of a second or more marks a leap second, which only the last second of a
/// minute may carry.
pub open spec fn valid_time(secs: u32, nanos: u32) -> bool {
    &&& secs < 86_400
    &&& nanos < 2_000_000_000
    &&& nanos >= 1_000_000_000 ==> secs % 60 == 59
}

/// A time of day, to the nanosecond.
pub struct TimeOfDay {
    secs: u32,
    nanos: u32,
}

impl TimeOfDay {
    #[verifier::type_invariant]
    spec fn is_valid(self) -> bool {
        valid_time(self.secs, self.nanos)
    }

    /// Seconds since midnight.
    pub closed spec fn seconds(self) -> u32 {
        self.secs
    }

    /// Nanoseconds into the current second.
    pub closed spec fn nanos(self) -> u32 {
        self.nanos
    }

    /// The time `secs` seconds and `nanos` nanoseconds after midnight, if
    /// that is a valid time of day.
    pub fn from_parts(secs: u32, nanos: u32) -> (r: Option<TimeOfDay>)
        ensures
            r is Some <==> valid_time(secs, nanos),
            r matches Some(t) ==> t.seconds() == secs && t.nanos() == nanos,
    {
        if secs < 86_400 && nanos < 2_000_000_000 && (nanos < 1_000_000_000 || secs % 60 == 59) {
            Some(TimeOfDay { secs, nanos })
        } else {
            None
        }
    }

    /// Seconds since midnight.
    pub fn seconds_from_midnight(&self) -> (s: u32)
        ensures
            s == self.seconds(),
    {
        self.secs
    }

    /// Nanoseconds into the current second.
    pub fn nanosecond(&self) -> (n: u32)
        ensures
            n == self.nanos(),
    {
        self.nanos
    }
}

/// What chrono's `NaiveTime::from_str` makes of a text: seconds since
/// midnight and nanoseconds, or nothing when the text is no time of day.
pub uninterp spec fn naive_time_from_str(text: Seq<char>) -> Option<(u32, u32)>;

/// The text that chrono's `Display` of `NaiveTime` writes for a time.
pub uninterp spec fn naive_time_text(secs: u32, nanos: u32) -> Seq<char>;

/// Calls `NaiveTime::from_str` of chrono (through `str::parse`) and takes
/// the seconds since midnight and the nanoseconds of the time it parsed.
/// Claims that the result is the named result of that parse; a parsed
/// `NaiveTime` is always a valid time, which the type's invariant records.
#[verifier::external_body]
fn parse_time_of_day(text: &str) -> (r: Option<TimeOfDay>)
    ensures
        match naive_time_from_str(text@) {
            Some(p) => r matches Some(t) && t.seconds() == p.0 && t.nanos() == p.1,
            None => r is None,
        },
{
    match text.parse::<NaiveTime>() {
        Ok(t) => Some(TimeOfDay { secs: t.num_seconds_from_midnight(), nanos: t.nanosecond() }),
        Err(_) => None,
    }
}

/// Calls `NaiveTime::from_num_seconds_from_midnight_opt` and then
/// `to_string` (chrono's `Display`, format `%H:%M:%S%.f`) on the time.
/// The first call cannot fail on a valid time. Claims that the text is the
/// named result of that formatting, and that `NaiveTime::from_str` reads it
/// back as the same time, as chrono documents for `Display` (leap seconds
/// only occur at the end of a minute, where they print as second 60).
#[verifier::external_body]
fn time_text(t: &TimeOfDay) -> (r: String)
    ensures
        r@ == naive_time_text(t.seconds(), t.nanos()),
        naive_time_from_str(r@) == Some((t.seconds(), t.nanos())),
{
    NaiveTime::from_num_seconds_from_midnight_opt(t.secs, t.nanos).unwrap().to_string()
}

/// Whole seconds of chrono's `NaiveTime::signed_duration_since(later,
/// earlier)`, as `TimeDelta::num_seconds` counts them: a leap second
/// in `earlier` (or in `later`) counts when the other time lies after
/// (before) it, and a negative duration with a fraction rounds toward zero.
pub open spec fn elapsed_seconds(later_secs: int, later_nanos: int, earlier_secs: int, earlier_nanos: int) -> int {
    let secs0 = later_secs - earlier_secs;
    let secs = if later_secs > earlier_secs && earlier_nanos >= 1_000_000_000 {
        secs0 + 1
    } else if later_secs < earlier_secs && later_nanos >= 1_000_000_000 {
        secs0 - 1
    } else {
        secs0
    };
    let frac = later_nanos - earlier_nanos;
    let whole = secs + frac / 1_000_000_000;
    let rest = frac % 1_000_000_000;
    if whole < 0 && rest > 0 {
        whole + 1
    } else {
        whole
    }
}

/// Integer division that rounds toward zero, as Rust's `/` on integers.
pub open spec fn div_toward_zero(a: int, b: int) -> int {
    if a >= 0 {
        a / b
    } else {
        -((-a) / b)
    }
}

/// Whole minutes from `earlier` to `later`, as chrono's
/// `TimeDelta::num_minutes` counts them; negative when `later` is earlier
/// in the day.
pub open spec fn elapsed_minutes(later: TimeOfDay, earlier: TimeOfDay) -> int {
    div_toward_zero(
        elapsed_seconds(
            later.seconds() as int,
            later.nanos() as int,
            earlier.seconds() as int,
            earlier.nanos() as int,
        ),
        60,
    )
}

/// Calls chrono's `NaiveTime - NaiveTime` (`signed_duration_since`) and
/// `TimeDelta::num_minutes` on the result. Claims the arithmetic that
/// chrono's source performs, written out in `elapsed_minutes`.
#[verifier::external_body]
fn minutes_between(later: &TimeOfDay, earlier: &TimeOfDay) -> (m: i64)
    ensures
        m == elapsed_minutes(*later, *earlier),
{
    let l = NaiveTime::from_num_seconds_from_midnight_opt(later.secs, later.nanos).unwrap();
    let e = NaiveTime::from_num_seconds_from_midnight_opt(earlier.secs, earlier.nanos).unwrap();
    (l - e).num_minutes()
}

/// The minutes a reader still waits for a new feed when `elapsed` minutes
/// passed since the last refresh: some while fewer than `TIMER_MAX` have
/// passed (and the clock did not go back), none otherwise.
pub open spec fn cooldown_after(elapsed: int) -> Option<int> {
    if 0 <= elapsed <= TIMER_MAX {
        Some(TIMER_MAX - elapsed)
    } else {
        None
    }
}

/// The cooldown left after `elapsed` minutes, or none when a new feed may
/// be fetched.
pub fn refresh_cooldown(elapsed: i64) -> (r: Option<i32>)
    ensures
        match cooldown_after(elapsed as int) {
            Some(c) => r == Some(c as i32) && 0 <= c <= TIMER_MAX,
            None => r is None,
        },
{
    if 0 <= elapsed && elapsed <= TIMER_MAX {
        Some((TIMER_MAX - elapsed) as i32)
    } else {
        None
    }
}

/// Whole minutes from the time of day that `text` spells to `now`, or none
/// when `text` is no time of day.
pub open spec fn minutes_since(now: TimeOfDay, text: Seq<char>) -> Option<int> {
    match naive_time_from_str(text) {
        Some(p) => Some(
            div_toward_zero(
                elapsed_seconds(now.seconds() as int, now.nanos() as int, p.0 as int, p.1 as int),
                60,
            ),
        ),
        None => None,
    }
}

/// The minutes of cooldown left for a profile last refreshed at
/// `last_refresh`, at time `now`; none when a new feed is due.
pub open spec fn cooldown_left(last_refresh: Option<String>, now: TimeOfDay) -> Option<int> {
    match last_refresh {
        Some(text) => match minutes_since(now, text@) {
            Some(m) => cooldown_after(m),
            None => None,
        },
        None => None,
    }
}

/// The refresh time of a profile is there but is no time of day.
pub open spec fn refresh_unreadable(last_refresh: Option<String>) -> bool {
    last_refresh matches Some(text) && naive_time_from_str(text@) is None
}

/// What the time of the last refresh means for serving a feed now.
pub enum RefreshPlan {
    /// The stored refresh time is no time of day.
    Unreadable,
    /// The cooldown runs: this many minutes are left.
    Cooldown(i32),
    /// A new feed is due; this text records `now` as the refresh time.
    Stamp(String),
}

/// The plan for a profile last refreshed at `last_refresh` (never, when
/// none), at time of day `now`: the cooldown runs while at most `TIMER_MAX`
/// whole minutes passed since the refresh (and the clock did not go back);
/// otherwise a new feed is due and `now` becomes the refresh time.
pub fn refresh_plan(last_refresh: &Option<String>, now: &TimeOfDay) -> (r: RefreshPlan)
    ensures
        refresh_unreadable(*last_refresh) ==> r is Unreadable,
        !refresh_unreadable(*last_refresh) ==> match cooldown_left(*last_refresh, *now) {
            Some(c) => r == RefreshPlan::Cooldown(c as i32) && 0 <= c <= TIMER_MAX,
            None => r matches RefreshPlan::Stamp(text) && text@ == naive_time_text(
                now.seconds(),
                now.nanos(),
            ) && naive_time_from_str(text@) == Some((now.seconds(), now.nanos())),
        },
{
    if let Some(text) = last_refresh {
        match parse_time_of_day(text.as_str()) {
            None => {
                return RefreshPlan::Unreadable;
            },
            Some(last) => {
                let elapsed = minutes_between(now, &last);
                if let Some(c) = refresh_cooldown(elapsed) {
                    return RefreshPlan::Cooldown(c);
                }
            },
        }
    }
    RefreshPlan::Stamp(time_text(now))
}

} // verus!
