//! The decisions of the daemon's two monitor loops: holding the battery at its
//! threshold, and switching Wi-Fi power saving with the AC adapter.
//!
//! The loops themselves read sysfs, run `iw` and sleep; every choice they make
//! between those steps is made here.

use vstd::prelude::*;

use crate::adapter::{Adapter, AdapterError};
use crate::battery::{read_error_message, threshold_error_message, BatteryReadError, ThresholdSetError};
use crate::battery::threshold_accepted;
use crate::config::{charge_limit_in_range, Config};
use crate::policy::{decide, decided_state, decision};
use crate::state::{PersistentState, State};
use crate::time::Timestamp;
use crate::wifi::{Wifi, WifiError, WifiReadError, WifiSetError};

verus! {

/// Consecutive `iw` failures after which the devices are looked for afresh.
pub const IW_FAILURES_BEFORE_REDISCOVER: u8 = 3;

/// How long a settled Wi-Fi check stays good while the adapter state is
/// unchanged, in nanoseconds.
pub const WIFI_RECHECK_INTERVAL_NANOS: u64 = 60_000_000_000;

/// Seconds the battery loop sleeps after a pass that read the charge.
pub const BATTERY_POLL_SECONDS: u64 = 30;

/// Seconds the battery loop sleeps after a pass that could not read the
/// charge.
pub const CAPACITY_RETRY_SECONDS: u64 = 60;

/// The deciding half of one pass of the battery loop, given how reading the
/// charge went. With the charge read, the threshold is decided, what deciding
/// changed is kept in `state`, and `state` is marked to be written out when
/// deciding changed it; the threshold to hold is returned. With the charge
/// unreadable nothing is decided, `state` is left as it was, and the pass
/// ends.
pub fn battery_pass(
    cfg: &Config,
    state: &mut PersistentState,
    capacity: &Result<u32, BatteryReadError>,
    now: Timestamp,
) -> (target: Option<u32>)
    requires
        old(state).spec_data().valid(),
        now.valid(),
    ensures
        final(state).spec_data().valid(),
        match capacity {
            Err(_) => target is None && final(state).spec_data() == old(state).spec_data() && final(state).spec_dirty()
                == old(state).spec_dirty(),
            Ok(c) => {
                let d = decision(*cfg, old(state).spec_data(), *c, now);
                &&& target == Some(d.target_threshold)
                &&& final(state).spec_data() == decided_state(old(state).spec_data(), *c, now)
                &&& final(state).spec_dirty() == (old(state).spec_dirty() || d.state_dirty)
            },
        },
{
    match capacity {
        Err(_) => None,
        Ok(c) => {
            let mut data = *state.data();
            let d = decide(cfg, &mut data, *c, now);
            state.set_data(data);
            if d.state_dirty {
                state.mark_dirty();
            }
            Some(d.target_threshold)
        },
    }
}

/// How long the battery loop sleeps after a pass, in seconds: longer when the
/// charge could not be read.
pub fn battery_pause(capacity_read: bool) -> (seconds: u64)
    ensures
        seconds == if capacity_read { BATTERY_POLL_SECONDS } else { CAPACITY_RETRY_SECONDS },
{
    if capacity_read {
        BATTERY_POLL_SECONDS
    } else {
        CAPACITY_RETRY_SECONDS
    }
}

/// After reading the threshold in force: whether a new one must be written, and
/// what becomes of the reported threshold error. A failed read is reported and
/// the target written; a threshold already at the target clears the report;
/// any other threshold is replaced by the target.
pub fn reconcile_threshold(
    applied: &Result<u32, BatteryReadError>,
    target: u32,
    threshold_error: &mut Option<String>,
) -> (write: Option<u32>)
    ensures
        match applied {
            Err(e) => write == Some(target) && ((*final(threshold_error)) matches Some(m) && m@ == read_error_message(*e)),
            Ok(current) => if *current == target {
                write is None && (*final(threshold_error)) is None
            } else {
                write == Some(target) && *final(threshold_error) == *old(threshold_error)
            },
        },
{
    match applied {
        Err(e) => {
            *threshold_error = Some(e.message());
            Some(target)
        },
        Ok(current) => {
            if *current == target {
                *threshold_error = None;
                None
            } else {
                Some(target)
            }
        },
    }
}

/// After writing the threshold: a failed write is reported; a successful one
/// clears the report when the threshold in force had been read, and leaves the
/// read error reported when it had not.
pub fn threshold_written(
    had_reading: bool,
    result: &Result<(), ThresholdSetError>,
    threshold_error: &mut Option<String>,
)
    ensures
        match result {
            Err(e) => (*final(threshold_error)) matches Some(m) && m@ == threshold_error_message(*e),
            Ok(()) => if had_reading {
                (*final(threshold_error)) is None
            } else {
                *final(threshold_error) == *old(threshold_error)
            },
        },
{
    match result {
        Ok(()) => {
            if had_reading {
                *threshold_error = None;
            }
        },
        Err(e) => {
            *threshold_error = Some(e.message());
        },
    }
}

/// Counts an `iw` failure; the third in a row drops the devices so that they
/// are looked for again, and starts the count afresh.
pub fn note_iw_failure(failures: &mut u8, devices: &mut Option<(Adapter, Wifi)>, reported: &mut bool)
    ensures
        if old(failures) + 1 >= IW_FAILURES_BEFORE_REDISCOVER {
            *final(failures) == 0 && (*final(devices)) is None && !*final(reported)
        } else {
            *final(failures) == old(failures) + 1 && *final(devices) == *old(devices) && *final(reported)
                == *old(reported)
        },
{
    *failures = failures.saturating_add(1);
    if *failures >= IW_FAILURES_BEFORE_REDISCOVER {
        *devices = None;
        *reported = false;
        *failures = 0;
    }
}

/// The devices to use, given what looking for the adapter and the wireless
/// interface gave: both, when both were found. `reported` marks that a missing
/// device has been reported, so that it is reported once per outage.
pub fn find_devices(
    reported: &mut bool,
    adapter: Result<Adapter, AdapterError>,
    wifi: Result<Wifi, WifiError>,
) -> (devices: Option<(Adapter, Wifi)>)
    ensures
        match (adapter, wifi) {
            (Ok(a), Ok(w)) => devices == Some((a, w)) && !*final(reported),
            _ => devices is None && *final(reported),
        },
{
    match (adapter, wifi) {
        (Ok(adapter), Ok(wifi)) => {
            *reported = false;
            Some((adapter, wifi))
        },
        _ => {
            *reported = true;
            None
        },
    }
}

/// The power-save setting to ask `iw` for, given whether the adapter is
/// online, the setting in force and the recorded original: on AC, power saving
/// that is on is switched off; on battery, a recorded original that differs
/// from the setting in force is put back; otherwise nothing is set.
pub open spec fn power_save_plan(online: bool, current: bool, restore: Option<bool>) -> Option<bool> {
    if online {
        if current {
            Some(false)
        } else {
            None
        }
    } else {
        match restore {
            Some(original) => if current == original {
                None
            } else {
                Some(original)
            },
            None => None,
        }
    }
}

/// What the record of the original setting becomes (`Some(new)` to replace
/// it, `None` to leave it), and whether the check is settled, given whether
/// the planned setting was applied (`None` when nothing was planned).
///
/// On AC, switching power saving off records the original (`on`) unless one is
/// recorded already; a failed switch leaves the check unsettled. On battery
/// with an original recorded, the record is dropped once the original is in
/// force again, and a failed restore leaves the check unsettled.
pub open spec fn power_save_outcome(online: bool, current: bool, restore: Option<bool>, applied: Option<bool>) -> (Option<Option<bool>>, bool) {
    if online {
        if current {
            match applied {
                Some(true) => (if restore is None { Some(Some(current)) } else { None }, true),
                _ => (None, false),
            }
        } else {
            (None, true)
        }
    } else {
        match restore {
            Some(original) => if current == original || applied == Some(true) {
                (Some(None), true)
            } else {
                (None, false)
            },
            None => (None, true),
        }
    }
}

/// Decides [`power_save_plan`].
pub fn plan_power_save(online: bool, current: bool, restore: Option<bool>) -> (set: Option<bool>)
    ensures
        set == power_save_plan(online, current, restore),
{
    if online {
        if current {
            Some(false)
        } else {
            None
        }
    } else {
        match restore {
            Some(original) => if current == original {
                None
            } else {
                Some(original)
            },
            None => None,
        }
    }
}

/// The Wi-Fi monitor's memory between two looks at the adapter.
#[derive(Debug)]
pub struct PowerMonitor {
    /// The adapter and wireless interface in use, once both were found.
    pub devices: Option<(Adapter, Wifi)>,
    /// Whether a missing device has been reported in this outage.
    pub reported: bool,
    /// Consecutive `iw` failures.
    pub iw_failures: u8,
    /// The adapter state at the last settled check.
    pub last_online: Option<bool>,
    /// When the last settled check was, in monotonic nanoseconds.
    pub last_checked: Option<u64>,
}

/// Whether a settled check made at `last_checked` has gone stale at `now`: never
/// checked, or a full recheck interval has passed (time running backwards
/// counts as no time passing).
pub open spec fn check_is_stale(last_checked: Option<u64>, now: u64) -> bool {
    match last_checked {
        None => true,
        Some(at) => (if now >= at { now - at } else { 0 }) >= WIFI_RECHECK_INTERVAL_NANOS,
    }
}

impl PowerMonitor {
    /// Nothing found, nothing checked.
    pub fn new() -> (m: PowerMonitor)
        ensures
            m.devices is None,
            !m.reported,
            m.iw_failures == 0,
            m.last_online is None,
            m.last_checked is None,
    {
        PowerMonitor { devices: None, reported: false, iw_failures: 0, last_online: None, last_checked: None }
    }

    /// Whether the devices must be looked for: they are not known yet, and the
    /// feature is on or an original setting is waiting to be put back.
    pub fn wants_devices(&self, enabled: bool, pending: bool) -> (b: bool)
        ensures
            b == (self.devices is None && (enabled || pending)),
    {
        self.devices.is_none() && (enabled || pending)
    }

    /// Takes in what looking for the devices gave.
    pub fn discover(&mut self, adapter: Result<Adapter, AdapterError>, wifi: Result<Wifi, WifiError>)
        ensures
            match (adapter, wifi) {
                (Ok(a), Ok(w)) => final(self).devices == Some((a, w)) && !final(self).reported,
                _ => final(self).devices is None && final(self).reported,
            },
            final(self).iw_failures == old(self).iw_failures,
            final(self).last_online == old(self).last_online,
            final(self).last_checked == old(self).last_checked,
    {
        self.devices = find_devices(&mut self.reported, adapter, wifi);
    }

    /// With the feature off: forgets the last check, and takes in how putting
    /// back the original setting went, when an original was waiting
    /// (`attempt` holds the original, the result of setting it, and the record
    /// as it stands now). Returns the new record, if it is to change: once put
    /// back, a record that still holds that original is dropped.
    pub fn while_disabled(&mut self, attempt: Option<(bool, Result<(), WifiSetError>, Option<bool>)>) -> (new_record: Option<Option<bool>>)
        ensures
            final(self).last_online is None,
            final(self).last_checked is None,
            new_record == restored_change(attempt),
            match attempt {
                None => new_record is None && final(self).iw_failures == old(self).iw_failures
                    && final(self).devices == old(self).devices && final(self).reported == old(self).reported,
                Some((original, Ok(()), record)) => final(self).iw_failures == 0 && final(self).devices
                    == old(self).devices && final(self).reported == old(self).reported && new_record == (if record
                    == Some(original) {
                    Some(None::<bool>)
                } else {
                    None
                }),
                Some((_, Err(_), _)) => new_record is None && if old(self).iw_failures + 1
                    >= IW_FAILURES_BEFORE_REDISCOVER {
                    final(self).iw_failures == 0 && final(self).devices is None && !final(self).reported
                } else {
                    final(self).iw_failures == old(self).iw_failures + 1 && final(self).devices
                        == old(self).devices && final(self).reported == old(self).reported
                },
            },
    {
        let new_record = match attempt {
            None => None,
            Some((original, result, record)) => match result {
                Ok(()) => {
                    self.iw_failures = 0;
                    if record == Some(original) {
                        Some(None)
                    } else {
                        None
                    }
                },
                Err(_) => {
                    note_iw_failure(&mut self.iw_failures, &mut self.devices, &mut self.reported);
                    None
                },
            },
        };
        self.last_online = None;
        self.last_checked = None;
        new_record
    }

    /// Whether the Wi-Fi setting must be looked at, given the adapter state and
    /// the time: unless the adapter state is the one last settled and that
    /// check is still fresh.
    pub fn needs_check(&self, online: bool, now: u64) -> (b: bool)
        ensures
            b == check_needed(*self, online, now),
    {
        let stale = match self.last_checked {
            None => true,
            Some(at) => now.saturating_sub(at) >= WIFI_RECHECK_INTERVAL_NANOS,
        };
        !(self.last_online == Some(online) && !stale)
    }

    /// Takes in how reading the power-save setting went: the setting, or no
    /// setting after counting the failure.
    pub fn power_save_read(&mut self, read: Result<bool, WifiReadError>) -> (current: Option<bool>)
        ensures
            match read {
                Ok(v) => current == Some(v) && final(self).iw_failures == 0 && final(self).devices
                    == old(self).devices && final(self).reported == old(self).reported,
                Err(_) => current is None && if old(self).iw_failures + 1 >= IW_FAILURES_BEFORE_REDISCOVER {
                    final(self).iw_failures == 0 && final(self).devices is None && !final(self).reported
                } else {
                    final(self).iw_failures == old(self).iw_failures + 1 && final(self).devices
                        == old(self).devices && final(self).reported == old(self).reported
                },
            },
            final(self).last_online == old(self).last_online,
            final(self).last_checked == old(self).last_checked,
    {
        match read {
            Ok(v) => {
                self.iw_failures = 0;
                Some(v)
            },
            Err(_) => {
                note_iw_failure(&mut self.iw_failures, &mut self.devices, &mut self.reported);
                None
            },
        }
    }

    /// Takes in how applying the planned setting went (`set` is `None` when
    /// nothing was planned) and returns the new record of the original setting,
    /// if it is to change. A settled check remembers the adapter state and the
    /// time; a failed `iw` run is counted, a successful one resets the count.
    pub fn settle(
        &mut self,
        online: bool,
        current: bool,
        restore: Option<bool>,
        set: Option<Result<(), WifiSetError>>,
        now: u64,
    ) -> (new_record: Option<Option<bool>>)
        requires
            set is Some == power_save_plan(online, current, restore) is Some,
        ensures
            ({
                let applied = match set {
                    None => None,
                    Some(Ok(())) => Some(true),
                    Some(Err(_)) => Some(false),
                };
                let (record, settled) = power_save_outcome(online, current, restore, applied);
                &&& new_record == record
                &&& settled ==> final(self).last_online == Some(online) && final(self).last_checked == Some(now)
                &&& !settled ==> final(self).last_online == old(self).last_online && final(self).last_checked
                    == old(self).last_checked
                &&& match set {
                    None => final(self).iw_failures == old(self).iw_failures && final(self).devices
                        == old(self).devices && final(self).reported == old(self).reported,
                    Some(Ok(())) => final(self).iw_failures == 0 && final(self).devices == old(self).devices
                        && final(self).reported == old(self).reported,
                    Some(Err(_)) => if old(self).iw_failures + 1 >= IW_FAILURES_BEFORE_REDISCOVER {
                        final(self).iw_failures == 0 && final(self).devices is None && !final(self).reported
                    } else {
                        final(self).iw_failures == old(self).iw_failures + 1 && final(self).devices
                            == old(self).devices && final(self).reported == old(self).reported
                    },
                }
            }),
    {
        let mut settled = true;
        let mut new_record: Option<Option<bool>> = None;
        if online {
            if current {
                match set {
                    Some(Ok(())) => {
                        self.iw_failures = 0;
                        if restore.is_none() {
                            new_record = Some(Some(current));
                        }
                    },
                    _ => {
                        settled = false;
                        note_iw_failure(&mut self.iw_failures, &mut self.devices, &mut self.reported);
                    },
                }
            }
        } else {
            match restore {
                Some(original) => {
                    let restored = if current == original {
                        true
                    } else {
                        match set {
                            Some(Ok(())) => {
                                self.iw_failures = 0;
                                true
                            },
                            _ => {
                                note_iw_failure(&mut self.iw_failures, &mut self.devices, &mut self.reported);
                                false
                            },
                        }
                    };
                    if restored {
                        new_record = Some(None);
                    } else {
                        settled = false;
                    }
                },
                None => {},
            }
        }
        if settled {
            self.last_online = Some(online);
            self.last_checked = Some(now);
        }
        new_record
    }
}

/// The setting in force after a planned setting was applied or not.
pub open spec fn setting_after(current: bool, plan: Option<bool>, applied: bool) -> bool {
    match plan {
        Some(v) => if applied {
            v
        } else {
            current
        },
        None => current,
    }
}

/// The record of the original setting after an outcome.
pub open spec fn record_after(restore: Option<bool>, change: Option<Option<bool>>) -> Option<bool> {
    match change {
        Some(record) => record,
        None => restore,
    }
}

/// How applying a plan that succeeded is reported to [`power_save_outcome`].
pub open spec fn success_of(plan: Option<bool>) -> Option<bool> {
    if plan is Some {
        Some(true)
    } else {
        None
    }
}

/// Plugging in and then unplugging, with every `iw` run succeeding, leaves
/// the power-save setting as it was before plugging in and nothing recorded:
/// on AC power saving is off, and the original is put back on battery.
pub proof fn ac_cycle_restores_original(original: bool)
    ensures
        ({
            let plan_on = power_save_plan(true, original, None);
            let (change_on, settled_on) = power_save_outcome(true, original, None, success_of(plan_on));
            let on_ac = setting_after(original, plan_on, true);
            let record = record_after(None, change_on);
            let plan_off = power_save_plan(false, on_ac, record);
            let (change_off, settled_off) = power_save_outcome(false, on_ac, record, success_of(plan_off));
            &&& !on_ac
            &&& settled_on
            &&& settled_off
            &&& setting_after(on_ac, plan_off, true) == original
            &&& record_after(record, change_off) is None
        }),
{
}

/// On AC an original already recorded is never replaced, whatever the setting
/// in force and whether setting it worked: it is the setting from before the
/// daemon first changed it.
pub proof fn record_kept_on_ac(current: bool, original: bool, applied: Option<bool>)
    ensures
        record_after(Some(original), power_save_outcome(true, current, Some(original), applied).0) == Some(original),
{
}

/// On battery with nothing recorded, the daemon leaves the setting alone.
pub proof fn battery_without_record_is_left_alone(current: bool)
    ensures
        power_save_plan(false, current, None) is None,
        power_save_outcome(false, current, None, None) == (None::<Option<bool>>, true),
{
}

/// What putting back the original setting with the feature off does to the
/// record (`attempt` as [`PowerMonitor::while_disabled`] takes it): a record
/// that still holds the original put back is dropped.
pub open spec fn restored_change(attempt: Option<(bool, Result<(), WifiSetError>, Option<bool>)>) -> Option<Option<bool>> {
    match attempt {
        Some((original, Ok(()), record)) => if record == Some(original) { Some(None) } else { None },
        _ => None,
    }
}

/// Whether `applied` reports on `plan`: something was applied exactly when
/// something was planned.
pub open spec fn reports_on(plan: Option<bool>, applied: Option<bool>) -> bool {
    applied is Some == plan is Some
}

/// Every change the Wi-Fi monitor makes to the record is justified. It
/// records `on` only after switching power saving off succeeded, on AC, with
/// power saving on and nothing recorded yet; it drops the record only on
/// battery, once the recorded original is the setting in force, read back or
/// put back successfully.
pub proof fn record_changes_are_justified(online: bool, current: bool, restore: Option<bool>, applied: Option<bool>)
    requires
        reports_on(power_save_plan(online, current, restore), applied),
    ensures
        power_save_outcome(online, current, restore, applied).0 matches Some(Some(v)) ==> {
            &&& v
            &&& online && current && restore is None
            &&& power_save_plan(online, current, restore) == Some(false) && applied == Some(true)
        },
        power_save_outcome(online, current, restore, applied).0 matches Some(None) ==> {
            &&& !online
            &&& restore matches Some(original) && (current == original || (power_save_plan(online, current, restore)
                == Some(original) && applied == Some(true)))
        },
{
}

/// The record only ever holds `on`, or nothing: if it held no other value
/// before a check or a restore while the feature is off, it holds no other
/// value after.
pub proof fn record_stays_on_or_absent(
    online: bool,
    current: bool,
    restore: Option<bool>,
    applied: Option<bool>,
    attempt: Option<(bool, Result<(), WifiSetError>, Option<bool>)>,
)
    requires
        restore is None || restore == Some(true),
    ensures
        ({
            let after = record_after(restore, power_save_outcome(online, current, restore, applied).0);
            after is None || after == Some(true)
        }),
        ({
            let after = record_after(restore, restored_change(attempt));
            after is None || after == Some(true)
        }),
{
}

/// Whether the Wi-Fi setting must be looked at by monitor `m` for adapter
/// state `online` at `now`.
pub open spec fn check_needed(m: PowerMonitor, online: bool, now: u64) -> bool {
    !(m.last_online == Some(online) && !check_is_stale(m.last_checked, now))
}

/// Once a check has settled at `at` for adapter state `online`, the Wi-Fi
/// setting is not looked at again for that state until a full recheck interval
/// has passed, is looked at again once it has, and is looked at at once when
/// the adapter state changes.
pub proof fn settled_check_is_fresh(m: PowerMonitor, online: bool, at: u64, now: u64)
    requires
        m.last_online == Some(online),
        m.last_checked == Some(at),
    ensures
        now - at < WIFI_RECHECK_INTERVAL_NANOS ==> !check_needed(m, online, now),
        now - at >= WIFI_RECHECK_INTERVAL_NANOS ==> check_needed(m, online, now),
        check_needed(m, !online, now),
{
}

/// With a configured charge limit in range, every threshold the battery
/// monitor decides on is one that setting the threshold accepts.
pub proof fn decided_threshold_is_accepted(cfg: Config, state: State, capacity: u32, now: Timestamp)
    requires
        charge_limit_in_range(cfg.charge_limit),
    ensures
        threshold_accepted(decision(cfg, state, capacity, now).target_threshold),
{
    crate::policy::decision_threshold_is_limit_or_full(cfg, state, capacity, now);
}

/// What the Wi-Fi monitor asks of `iw`, whatever the recorded original: on
/// AC, power saving that is on is always switched off and power saving that is
/// off is left alone; on battery, a recorded original that is not in force is
/// put back, and nothing is set when the original is in force or none is
/// recorded.
pub proof fn power_save_plan_law(current: bool, restore: Option<bool>, original: bool)
    ensures
        power_save_plan(true, true, restore) == Some(false),
        power_save_plan(true, false, restore) is None,
        original != current ==> power_save_plan(false, current, Some(original)) == Some(original),
        power_save_plan(false, original, Some(original)) is None,
        power_save_plan(false, current, None) is None,
{
}

} // verus!
