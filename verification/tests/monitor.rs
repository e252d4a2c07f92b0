use zenbookd::adapter::{Adapter, AdapterError};
use zenbookd::battery::{BatteryReadError, ThresholdSetError};
use zenbookd::config::Config;
use zenbookd::state::{PersistentState, State};
use zenbookd::time::Timestamp;
use zenbookd::monitor::{battery_pass, battery_pause, find_devices, note_iw_failure, plan_power_save, reconcile_threshold, threshold_written, PowerMonitor};
use zenbookd::supply::PowerSupplyEntry;
use zenbookd::wifi::{NetEntry, Wifi, WifiError, WifiReadError, WifiSetError};

fn devices() -> (Adapter, Wifi) {
    let adapter = Adapter::find(
        "/sys/class/power_supply",
        Ok(vec![PowerSupplyEntry { raw_name: b"ADP1".to_vec(), name: Some("ADP1".to_string()), is_dir: true, supply_type: Some("Mains".to_string()), has_threshold: false }]),
    )
    .unwrap();
    let wifi = Wifi::find(Ok(vec![NetEntry { name: Some("wlan0".to_string()), wireless: true }])).unwrap();
    (adapter, wifi)
}

#[test]
fn a_threshold_in_force_needs_no_write() {
    let mut error = Some("stale".to_string());
    assert_eq!(reconcile_threshold(&Ok(80), 80, &mut error), None);
    assert_eq!(error, None);
}

#[test]
fn a_different_threshold_is_replaced() {
    let mut error = Some("stale".to_string());
    assert_eq!(reconcile_threshold(&Ok(100), 80, &mut error), Some(80));
    assert_eq!(error.as_deref(), Some("stale"));
    threshold_written(true, &Ok(()), &mut error);
    assert_eq!(error, None);
}

#[test]
fn an_unreadable_threshold_is_reported_and_written() {
    let mut error = None;
    assert_eq!(reconcile_threshold(&Err(BatteryReadError::IoError("gone".to_string())), 80, &mut error), Some(80));
    assert_eq!(error.as_deref(), Some("IO error: gone"));
    threshold_written(false, &Ok(()), &mut error);
    assert_eq!(error.as_deref(), Some("IO error: gone"));
    threshold_written(false, &Err(ThresholdSetError::IoError("denied".to_string())), &mut error);
    assert_eq!(error.as_deref(), Some("IO error: denied"));
}

#[test]
fn three_iw_failures_in_a_row_drop_the_devices() {
    let mut failures = 0u8;
    let mut found = Some(devices());
    let mut reported = true;
    note_iw_failure(&mut failures, &mut found, &mut reported);
    note_iw_failure(&mut failures, &mut found, &mut reported);
    assert!(found.is_some());
    assert_eq!(failures, 2);
    note_iw_failure(&mut failures, &mut found, &mut reported);
    assert!(found.is_none());
    assert_eq!(failures, 0);
    assert!(!reported);
}

#[test]
fn devices_are_used_only_when_both_are_found() {
    let mut reported = false;
    let (adapter, wifi) = devices();
    assert!(find_devices(&mut reported, Err(AdapterError::NotFound), Ok(wifi)).is_none());
    assert!(reported);
    let (_, wifi) = devices();
    assert!(find_devices(&mut reported, Ok(adapter), Ok(wifi)).is_some());
    assert!(!reported);
    let (adapter, _) = devices();
    assert!(find_devices(&mut reported, Ok(adapter), Err(WifiError::NotFound)).is_none());
}

#[test]
fn plugging_in_and_out_restores_the_original_setting() {
    let mut monitor = PowerMonitor::new();
    let (adapter, wifi) = devices();
    monitor.discover(Ok(adapter), Ok(wifi));
    assert!(monitor.devices.is_some());

    // On AC with power saving on: it is switched off and the original recorded.
    let mut record: Option<bool> = None;
    let mut interface = true;
    assert!(monitor.needs_check(true, 0));
    let plan = plan_power_save(true, interface, record);
    assert_eq!(plan, Some(false));
    interface = plan.unwrap();
    if let Some(change) = monitor.settle(true, true, record, Some(Ok(())), 0) {
        record = change;
    }
    assert_eq!(record, Some(true));
    assert!(!monitor.needs_check(true, 1_000));
    assert!(monitor.needs_check(true, 60_000_000_000));

    // Unplugged: the original is put back and the record dropped.
    assert!(monitor.needs_check(false, 2_000));
    let plan = plan_power_save(false, interface, record);
    assert_eq!(plan, Some(true));
    interface = plan.unwrap();
    if let Some(change) = monitor.settle(false, false, record, Some(Ok(())), 2_000) {
        record = change;
    }
    assert!(interface);
    assert_eq!(record, None);
}

#[test]
fn a_failed_switch_leaves_the_check_unsettled() {
    let mut monitor = PowerMonitor::new();
    let (adapter, wifi) = devices();
    monitor.discover(Ok(adapter), Ok(wifi));
    let change = monitor.settle(true, true, None, Some(Err(WifiSetError::CommandFailed("busy".to_string()))), 5);
    assert_eq!(change, None);
    assert_eq!(monitor.iw_failures, 1);
    assert_eq!(monitor.last_online, None);
    assert!(monitor.needs_check(true, 6));
}

#[test]
fn power_save_reads_count_failures() {
    let mut monitor = PowerMonitor::new();
    assert_eq!(monitor.power_save_read(Err(WifiReadError::IoError("x".to_string()))), None);
    assert_eq!(monitor.iw_failures, 1);
    assert_eq!(monitor.power_save_read(Ok(false)), Some(false));
    assert_eq!(monitor.iw_failures, 0);
}

#[test]
fn with_the_feature_off_the_original_is_put_back_once() {
    let mut monitor = PowerMonitor::new();
    assert!(monitor.wants_devices(false, true));
    assert!(!monitor.wants_devices(false, false));
    let change = monitor.while_disabled(Some((true, Ok(()), Some(true))));
    assert_eq!(change, Some(None));
    let change = monitor.while_disabled(Some((true, Ok(()), Some(false))));
    assert_eq!(change, None);
    assert_eq!(monitor.while_disabled(None), None);
    assert_eq!(monitor.last_checked, None);
}

#[test]
fn on_battery_without_a_record_nothing_is_set() {
    assert_eq!(plan_power_save(false, true, None), None);
    assert_eq!(plan_power_save(false, false, Some(false)), None);
    assert_eq!(plan_power_save(true, false, None), None);
}

#[test]
fn a_battery_pass_decides_and_marks_what_it_changed() {
    let cfg = Config {
        charge_limit: 80,
        enable_periodic_full_charge: false,
        full_charge_period: 30,
        disable_wifi_power_save_on_ac: true,
    };
    let now = Timestamp::from_unix_seconds(1_768_478_400);
    let mut state = PersistentState::new(State::default());

    assert_eq!(battery_pass(&cfg, &mut state, &Ok(50), now), Some(80));
    assert!(!state.is_dirty());

    assert_eq!(battery_pass(&cfg, &mut state, &Ok(100), now), Some(80));
    assert!(state.is_dirty());
    assert_eq!(state.data().last_full_charge, Some(now));

    let mut untouched = PersistentState::new(State::default());
    let unreadable = Err(BatteryReadError::IoError("gone".to_string()));
    assert_eq!(battery_pass(&cfg, &mut untouched, &unreadable, now), None);
    assert!(!untouched.is_dirty());
    assert_eq!(battery_pause(false), 60);
    assert_eq!(battery_pause(true), 30);
}
