use zenbookd::config::{Config, ConfigLoadError, ConfigSaveError};
use zenbookd::ipc::{IpcError, Request, Response};
use zenbookd::policy::decide;
use zenbookd::service::{
    handle_request, reject_request, reload_config, service_status, state_saved, update_config, RequestPlan,
};
use zenbookd::state::State;
use zenbookd::time::Timestamp;

fn now() -> Timestamp {
    Timestamp::from_unix_seconds(1_768_478_400)
}

fn cfg() -> Config {
    Config { charge_limit: 80, enable_periodic_full_charge: true, full_charge_period: 30, disable_wifi_power_save_on_ac: true }
}

#[test]
fn an_out_of_range_limit_is_refused_with_the_range() {
    let mut state = State::default();
    let plan = handle_request(Request::SetChargeLimit(0), &cfg(), &mut state, now());
    match plan {
        RequestPlan::Reply(Response::Error(m)) => assert_eq!(m, "Charge limit must be between 1 and 100, got 0"),
        other => panic!("unexpected plan {other:?}"),
    }
    assert_eq!(state, State::default());
}

#[test]
fn an_accepted_setting_is_saved_then_reported() {
    let mut state = State::default();
    let mut config = cfg();
    let mut config_error = Some("old failure".to_string());

    let candidate = match handle_request(Request::SetChargeLimit(60), &config, &mut state, now()) {
        RequestPlan::SaveConfig(c) => c,
        other => panic!("unexpected plan {other:?}"),
    };
    assert_eq!(candidate, Config { charge_limit: 60, ..cfg() });

    let response = update_config(&mut config, &mut config_error, candidate, Ok(()));
    assert_eq!(response, Response::Done);
    assert_eq!(config.charge_limit, 60);
    assert_eq!(config_error, None);

    let status = service_status(&config, &state, now(), Some(94), Some(72), Some(60), &None, &config_error);
    assert_eq!(status.charge_limit, 60);
    assert_eq!(status.applied_threshold, Some(60));
}

#[test]
fn a_failed_save_changes_nothing() {
    let mut config = cfg();
    let mut config_error = None;
    let response = update_config(
        &mut config,
        &mut config_error,
        Config { charge_limit: 50, ..cfg() },
        Err(ConfigSaveError::IoError("read-only file system".to_string())),
    );
    assert_eq!(response, Response::Error("Failed to save config: IO error: read-only file system".to_string()));
    assert_eq!(config, cfg());
    assert_eq!(config_error, None);
}

#[test]
fn every_setter_changes_its_own_setting() {
    let mut state = State::default();
    let plan = handle_request(Request::SetPeriodicFullCharge(false), &cfg(), &mut state, now());
    assert!(matches!(plan, RequestPlan::SaveConfig(c) if c == Config { enable_periodic_full_charge: false, ..cfg() }));
    let plan = handle_request(Request::SetFullChargePeriod(45), &cfg(), &mut state, now());
    assert!(matches!(plan, RequestPlan::SaveConfig(c) if c == Config { full_charge_period: 45, ..cfg() }));
    let plan = handle_request(Request::SetFullChargePeriod(0), &cfg(), &mut state, now());
    assert!(matches!(plan, RequestPlan::Reply(Response::Error(_))));
    let plan = handle_request(Request::SetWifiPowerSave(false), &cfg(), &mut state, now());
    assert!(matches!(plan, RequestPlan::SaveConfig(c) if c == Config { disable_wifi_power_save_on_ac: false, ..cfg() }));
    assert!(matches!(handle_request(Request::GetStatus, &cfg(), &mut state, now()), RequestPlan::ReportStatus));
    assert!(matches!(handle_request(Request::ReloadConfig, &cfg(), &mut state, now()), RequestPlan::Reload));
}

#[test]
fn a_boost_lasts_a_day_and_charges_to_full() {
    let mut state = State::default();
    let plan = handle_request(Request::SetBoost(true), &cfg(), &mut state, now());
    let until = Timestamp::from_unix_seconds(now().seconds + 24 * 3600);
    assert_eq!(state.boost_until, Some(until));
    assert!(matches!(plan, RequestPlan::SaveState(s) if s == state));

    let later = Timestamp::from_unix_seconds(now().seconds + 3600);
    let decision = decide(&cfg(), &mut state, 50, later);
    assert_eq!(decision.target_threshold, 100);

    let plan = handle_request(Request::SetBoost(false), &cfg(), &mut state, now());
    assert_eq!(state.boost_until, None);
    assert!(matches!(plan, RequestPlan::SaveState(_)));
    assert_eq!(state_saved(Ok(())), Response::Done);
    assert_eq!(
        state_saved(Err(ConfigSaveError::IoError("no space".to_string()))),
        Response::Error("Failed to save state: IO error: no space".to_string())
    );
}

#[test]
fn reloading_replaces_or_reports() {
    let mut config = cfg();
    let mut config_error = None;
    let fresh = Config { charge_limit: 90, ..cfg() };
    assert_eq!(reload_config(&mut config, &mut config_error, Ok(fresh)), Response::Done);
    assert_eq!(config, fresh);

    let response = reload_config(&mut config, &mut config_error, Err(ConfigLoadError::NotFound));
    assert_eq!(response, Response::Error("Failed to reload config: Config file not found".to_string()));
    assert_eq!(config, fresh);
    assert_eq!(config_error.as_deref(), Some("Config file not found"));
}

#[test]
fn only_a_malformed_request_is_answered() {
    assert_eq!(
        reject_request(&IpcError::Json("expected value at line 1 column 1".to_string())),
        Some(Response::Error("Invalid request: expected value at line 1 column 1".to_string()))
    );
    assert_eq!(reject_request(&IpcError::MessageTooLarge(70000)), None);
    assert_eq!(reject_request(&IpcError::Io("reset".to_string())), None);
}

#[test]
fn the_status_reports_times_in_whole_seconds() {
    let state = State {
        last_full_charge: Some(Timestamp { seconds: 1_768_000_000, nanos: 900_000_000 }),
        boost_until: None,
        wifi_power_save_restore: None,
    };
    let status = service_status(&cfg(), &state, now(), None, None, None, &Some("t".to_string()), &None);
    assert_eq!(status.last_full_charge, Some(1_768_000_000));
    assert_eq!(status.boost_until, None);
    assert!(!status.calibration_active);
    assert_eq!(status.threshold_error.as_deref(), Some("t"));
    assert_eq!(status.full_charge_period, 30);
    assert!(status.enable_periodic_full_charge);
}
