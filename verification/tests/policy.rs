use zenbookd::config::Config;
use zenbookd::policy::{decide, needs_full_charge};
use zenbookd::state::State;
use zenbookd::time::Timestamp;

const MINUTE: i64 = 60;
const HOUR: i64 = 3600;
const DAY: i64 = 86_400;

fn now() -> Timestamp {
    // 2026-01-15T12:00:00Z
    Timestamp::from_unix_seconds(1_768_478_400)
}

fn at(offset_seconds: i64) -> Timestamp {
    Timestamp::from_unix_seconds(now().seconds + offset_seconds)
}

fn cfg(charge_limit: u32, periodic: bool, period: u32) -> Config {
    Config {
        charge_limit,
        enable_periodic_full_charge: periodic,
        full_charge_period: period,
        disable_wifi_power_save_on_ac: true,
    }
}

fn state(last_full_charge: Option<Timestamp>, boost_until: Option<Timestamp>) -> State {
    State { last_full_charge, boost_until, wifi_power_save_restore: None }
}

#[test]
fn records_first_full_charge() {
    let mut state = State::default();

    let decision = decide(&cfg(80, false, 90), &mut state, 100, now());

    assert!(decision.state_dirty);
    assert_eq!(state.last_full_charge, Some(now()));
    assert_eq!(decision.target_threshold, 80);
}

#[test]
fn does_not_rewrite_full_charge_within_the_hour() {
    let mut state = state(Some(at(-30 * MINUTE)), None);
    let before = state;

    let decision = decide(&cfg(80, false, 90), &mut state, 100, now());

    assert!(!decision.state_dirty);
    assert_eq!(state, before);
}

#[test]
fn refreshes_full_charge_after_an_hour() {
    let mut state = state(Some(at(-2 * HOUR)), None);

    let decision = decide(&cfg(80, false, 90), &mut state, 100, now());

    assert!(decision.state_dirty);
    assert_eq!(state.last_full_charge, Some(now()));
}

#[test]
fn active_boost_holds_threshold_at_100() {
    let mut state = state(Some(now()), Some(at(HOUR)));

    let decision = decide(&cfg(80, false, 90), &mut state, 80, now());

    assert_eq!(decision.target_threshold, 100);
    assert!(!decision.state_dirty);
    assert!(state.boost_until.is_some());
}

#[test]
fn expired_boost_is_cleared_and_limit_restored() {
    let mut state = state(Some(now()), Some(at(-HOUR)));

    let decision = decide(&cfg(80, false, 90), &mut state, 80, now());

    assert_eq!(decision.target_threshold, 80);
    assert!(decision.state_dirty);
    assert!(state.boost_until.is_none());
}

#[test]
fn boost_ends_when_battery_reaches_full() {
    let mut state = state(Some(at(-30 * MINUTE)), Some(at(HOUR)));

    let decision = decide(&cfg(80, false, 90), &mut state, 100, now());

    assert_eq!(decision.target_threshold, 80);
    assert!(decision.state_dirty);
    assert!(state.boost_until.is_none());
}

#[test]
fn periodic_charge_triggers_when_never_recorded() {
    let mut state = State::default();

    let decision = decide(&cfg(80, true, 90), &mut state, 50, now());

    assert_eq!(decision.target_threshold, 100);
    assert!(!decision.state_dirty);
}

#[test]
fn periodic_charge_triggers_once_the_period_elapses() {
    let mut state = state(Some(at(-91 * DAY)), None);

    let decision = decide(&cfg(80, true, 90), &mut state, 50, now());

    assert_eq!(decision.target_threshold, 100);
}

#[test]
fn periodic_charge_period_boundary_is_inclusive() {
    let mut state = state(Some(at(-90 * DAY)), None);

    let decision = decide(&cfg(80, true, 90), &mut state, 50, now());

    assert_eq!(decision.target_threshold, 100);
}

#[test]
fn periodic_charge_waits_until_the_period_elapses() {
    let mut state = state(Some(at(-10 * DAY)), None);

    let decision = decide(&cfg(80, true, 90), &mut state, 50, now());

    assert_eq!(decision.target_threshold, 80);
}

#[test]
fn periodic_charge_is_skipped_when_disabled() {
    let mut state = state(Some(at(-400 * DAY)), None);

    let decision = decide(&cfg(80, false, 90), &mut state, 50, now());

    assert_eq!(decision.target_threshold, 80);
}

#[test]
fn deciding_twice_at_the_same_instant_is_settled() {
    let config = cfg(80, true, 90);
    let mut state = state(Some(at(-2 * HOUR)), Some(at(-HOUR)));

    let first = decide(&config, &mut state, 100, now());
    let after_first = state;
    let second = decide(&config, &mut state, 100, now());

    assert!(first.state_dirty);
    assert!(!second.state_dirty);
    assert_eq!(state, after_first);
    assert_eq!(first.target_threshold, second.target_threshold);
}

#[test]
fn a_full_charge_just_short_of_the_hour_plus_one_minute_is_not_recorded() {
    // 60 minutes and 59 seconds whole minutes to 60, which is not past the hour.
    let mut first = state(Some(at(-(HOUR + 59))), None);
    let decision = decide(&cfg(80, false, 90), &mut first, 100, now());
    assert!(!decision.state_dirty);

    let mut state2 = state(Some(at(-(HOUR + MINUTE))), None);
    let decision2 = decide(&cfg(80, false, 90), &mut state2, 100, now());
    assert!(decision2.state_dirty);
}

#[test]
fn sub_second_parts_count_toward_the_difference() {
    let last = Timestamp { seconds: now().seconds - 90 * DAY, nanos: 500_000_000 };
    let config = cfg(80, true, 90);
    let state = state(Some(last), None);
    // 89 days, 23:59:59.5 have passed: not yet 90 whole days.
    assert!(!needs_full_charge(&config, &state, now()));
    assert!(needs_full_charge(&config, &state, Timestamp { seconds: now().seconds, nanos: 500_000_000 }));
}

#[test]
fn a_boost_ending_in_the_same_second_is_over_once_its_nanoseconds_pass() {
    let until = Timestamp { seconds: now().seconds, nanos: 10 };
    let mut before_end = state(Some(now()), Some(until));
    let d = decide(&cfg(80, false, 90), &mut before_end, 50, Timestamp { seconds: now().seconds, nanos: 5 });
    assert_eq!(d.target_threshold, 100);

    let mut after_end = state(Some(now()), Some(until));
    let d = decide(&cfg(80, false, 90), &mut after_end, 50, Timestamp { seconds: now().seconds, nanos: 10 });
    assert_eq!(d.target_threshold, 80);
    assert!(after_end.boost_until.is_none());
}
