use bubble_backend::clock::{refresh_cooldown, refresh_plan, RefreshPlan, TimeOfDay};

fn at(h: u32, m: u32, s: u32, nanos: u32) -> TimeOfDay {
    TimeOfDay::from_parts(h * 3600 + m * 60 + s, nanos).unwrap()
}

fn plan(last: Option<&str>, now: TimeOfDay) -> RefreshPlan {
    refresh_plan(&last.map(|t| t.to_string()), &now)
}

fn cooldown(last: &str, now: TimeOfDay) -> Option<i32> {
    match plan(Some(last), now) {
        RefreshPlan::Cooldown(c) => Some(c),
        _ => None,
    }
}

fn stamp(last: Option<&str>, now: TimeOfDay) -> Option<String> {
    match plan(last, now) {
        RefreshPlan::Stamp(text) => Some(text),
        _ => None,
    }
}

#[test]
fn times_of_day_are_checked() {
    assert!(TimeOfDay::from_parts(0, 0).is_some());
    assert!(TimeOfDay::from_parts(86_399, 999_999_999).is_some());
    assert!(TimeOfDay::from_parts(86_399, 1_999_999_999).is_some());
    assert!(TimeOfDay::from_parts(86_400, 0).is_none());
    assert!(TimeOfDay::from_parts(86_399, 2_000_000_000).is_none());
    assert!(TimeOfDay::from_parts(100, 1_000_000_000).is_none());
    let t = at(1, 2, 3, 4);
    assert_eq!(t.seconds_from_midnight(), 3723);
    assert_eq!(t.nanosecond(), 4);
}

#[test]
fn never_refreshed_profile_is_stamped_with_now() {
    assert_eq!(stamp(None, at(23, 56, 4, 0)).as_deref(), Some("23:56:04"));
    assert_eq!(stamp(None, at(23, 56, 4, 12_000_000)).as_deref(), Some("23:56:04.012"));
    assert_eq!(stamp(None, at(23, 56, 4, 123_456)).as_deref(), Some("23:56:04.000123456"));
    assert_eq!(stamp(None, at(6, 59, 59, 1_500_000_000)).as_deref(), Some("06:59:60.500"));
}

#[test]
fn cooldown_counts_whole_minutes_since_the_refresh() {
    assert_eq!(cooldown("10:00:00", at(10, 0, 0, 0)), Some(20));
    assert_eq!(cooldown("09:55:00", at(10, 0, 0, 0)), Some(15));
    assert_eq!(cooldown("09:55:01", at(10, 0, 0, 0)), Some(16));
    assert_eq!(cooldown("09:40:00", at(10, 0, 0, 0)), Some(0));
    assert_eq!(cooldown("09:39:00.5", at(10, 0, 0, 0)), Some(0));
    assert_eq!(cooldown("9:50", at(10, 0, 0, 0)), Some(10));
    assert_eq!(cooldown("23:56:4.012345678", at(23, 59, 0, 0)), Some(18));
}

#[test]
fn a_fresh_stamp_reads_back_as_now() {
    for now in [at(0, 0, 0, 0), at(7, 5, 9, 250_000_000), at(23, 59, 59, 1_500_000_000)] {
        let text = stamp(None, TimeOfDay::from_parts(now.seconds_from_midnight(), now.nanosecond()).unwrap()).unwrap();
        assert_eq!(cooldown(&text, now), Some(20));
    }
}

#[test]
fn leap_seconds_count_once() {
    assert_eq!(cooldown("10:00:00", at(10, 0, 59, 1_500_000_000)), Some(19));
    assert_eq!(cooldown("10:00:60.5", at(10, 2, 0, 0)), Some(19));
}

#[test]
fn a_refresh_seconds_ahead_still_cools_down() {
    // -30 seconds are zero whole minutes: chrono rounds toward zero.
    assert_eq!(cooldown("10:00:30", at(10, 0, 0, 0)), Some(20));
    // -90.5 seconds are -1 minute: the clock went back, a new feed is due.
    assert_eq!(
        stamp(Some("10:01:30.5"), at(10, 0, 0, 0)).as_deref(),
        Some("10:00:00")
    );
}

#[test]
fn expired_or_future_refresh_is_stamped() {
    assert_eq!(stamp(Some("09:38:59"), at(10, 0, 0, 0)).as_deref(), Some("10:00:00"));
    assert_eq!(stamp(Some("09:00:00"), at(10, 0, 0, 0)).as_deref(), Some("10:00:00"));
    assert_eq!(stamp(Some("11:00:00"), at(10, 0, 0, 0)).as_deref(), Some("10:00:00"));
    // Across midnight the day's minutes are negative.
    assert_eq!(stamp(Some("23:59:00"), at(0, 5, 0, 0)).as_deref(), Some("00:05:00"));
}

#[test]
fn unreadable_refresh_times() {
    assert!(matches!(plan(Some("foo"), at(10, 0, 0, 0)), RefreshPlan::Unreadable));
    assert!(matches!(plan(Some(""), at(10, 0, 0, 0)), RefreshPlan::Unreadable));
    assert!(matches!(plan(Some("25:00"), at(10, 0, 0, 0)), RefreshPlan::Unreadable));
}

#[test]
fn cooldown_runs_for_twenty_minutes() {
    assert_eq!(refresh_cooldown(0), Some(20));
    assert_eq!(refresh_cooldown(7), Some(13));
    assert_eq!(refresh_cooldown(20), Some(0));
    assert_eq!(refresh_cooldown(21), None);
    assert_eq!(refresh_cooldown(-1), None);
    assert_eq!(refresh_cooldown(-1439), None);
}
