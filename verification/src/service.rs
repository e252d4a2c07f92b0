//! How the daemon answers requests from the command-line tool.
//!
//! Answering a request may need the disk (saving or reloading the
//! configuration, saving the state) or the battery (for a status report). The
//! caller does that work; what to do, and what it means for the answer and for
//! the daemon's settings, is decided here.

use vstd::prelude::*;

use crate::config::{
    charge_limit_error, charge_limit_in_range, full_charge_period_error, full_charge_period_in_range,
    load_error_message, prefixed, save_error_message, validate_charge_limit, validate_full_charge_period,
    Config, ConfigLoadError, ConfigSaveError,
};
use crate::ipc::{IpcError, Request, Response, ServiceStatus};
use crate::policy::{boost_in_force, decision, full_charge_due, needs_full_charge, FULL_THRESHOLD};
use crate::state::State;
use crate::time::{Timestamp, TIMESTAMP_SECONDS_LIMIT};

verus! {

/// How long a boost lasts unless the battery fills first, in hours.
pub const BOOST_DURATION_HOURS: i64 = 24;

/// What answering a request takes.
#[derive(Debug)]
pub enum RequestPlan {
    /// Read the battery and answer with the status.
    ReportStatus,
    /// Answer at once with this response.
    Reply(Response),
    /// Write this configuration; once written it is the configuration.
    SaveConfig(Config),
    /// Read the configuration file again.
    Reload,
    /// Write this state, which already holds the change asked for.
    SaveState(State),
}

/// The configuration a setting request asks for, when it is one the daemon
/// accepts.
pub open spec fn requested_config(request: Request, cfg: Config) -> Option<Config> {
    match request {
        Request::SetChargeLimit(limit) => if charge_limit_in_range(limit) {
            Some(Config { charge_limit: limit, ..cfg })
        } else {
            None
        },
        Request::SetPeriodicFullCharge(enable) => Some(Config { enable_periodic_full_charge: enable, ..cfg }),
        Request::SetFullChargePeriod(days) => if full_charge_period_in_range(days) {
            Some(Config { full_charge_period: days, ..cfg })
        } else {
            None
        },
        Request::SetWifiPowerSave(disable_on_ac) => Some(Config { disable_wifi_power_save_on_ac: disable_on_ac, ..cfg }),
        _ => None,
    }
}

/// The state after a boost request at `now`: a boost ending a day later, or
/// no boost.
pub open spec fn boosted_state(state: State, enable: bool, now: Timestamp) -> State {
    State {
        boost_until: if enable {
            Some(Timestamp { seconds: (now.seconds + BOOST_DURATION_HOURS * 3600) as i64, nanos: now.nanos })
        } else {
            None
        },
        ..state
    }
}

/// Whether `now` leaves room for a boost to end within the timestamp range.
pub open spec fn boost_fits(now: Timestamp) -> bool {
    now.valid() && now.seconds + BOOST_DURATION_HOURS * 3600 <= TIMESTAMP_SECONDS_LIMIT
}

/// Decides what answering `request` takes. A setting out of range is refused
/// at once with a message naming the valid range, and nothing changes; an
/// accepted setting is to be saved; a boost request changes `state` at once.
pub fn handle_request(request: Request, config: &Config, state: &mut State, now: Timestamp) -> (plan: RequestPlan)
    requires
        request matches Request::SetBoost(_) ==> boost_fits(now),
        old(state).valid(),
    ensures
        final(state).valid(),
        match request {
            Request::GetStatus => plan is ReportStatus && *final(state) == *old(state),
            Request::ReloadConfig => plan is Reload && *final(state) == *old(state),
            Request::SetBoost(enable) => *final(state) == boosted_state(*old(state), enable, now)
                && plan == RequestPlan::SaveState(*final(state)),
            Request::SetChargeLimit(limit) => *final(state) == *old(state) && if charge_limit_in_range(limit) {
                plan == RequestPlan::SaveConfig(requested_config(request, *config).unwrap())
            } else {
                plan matches RequestPlan::Reply(Response::Error(m)) && m@ == charge_limit_error(limit)
            },
            Request::SetFullChargePeriod(days) => *final(state) == *old(state) && if full_charge_period_in_range(days) {
                plan == RequestPlan::SaveConfig(requested_config(request, *config).unwrap())
            } else {
                plan matches RequestPlan::Reply(Response::Error(m)) && m@ == full_charge_period_error(days)
            },
            _ => *final(state) == *old(state) && plan == RequestPlan::SaveConfig(requested_config(request, *config).unwrap()),
        },
{
    match request {
        Request::GetStatus => RequestPlan::ReportStatus,
        Request::SetChargeLimit(limit) => match validate_charge_limit(limit) {
            Err(err) => RequestPlan::Reply(Response::Error(err)),
            Ok(()) => RequestPlan::SaveConfig(Config { charge_limit: limit, ..*config }),
        },
        Request::SetPeriodicFullCharge(enable) => RequestPlan::SaveConfig(
            Config { enable_periodic_full_charge: enable, ..*config },
        ),
        Request::SetFullChargePeriod(days) => match validate_full_charge_period(days) {
            Err(err) => RequestPlan::Reply(Response::Error(err)),
            Ok(()) => RequestPlan::SaveConfig(Config { full_charge_period: days, ..*config }),
        },
        Request::SetWifiPowerSave(disable_on_ac) => RequestPlan::SaveConfig(
            Config { disable_wifi_power_save_on_ac: disable_on_ac, ..*config },
        ),
        Request::ReloadConfig => RequestPlan::Reload,
        Request::SetBoost(enable) => {
            state.boost_until = if enable {
                Some(now.plus_hours(BOOST_DURATION_HOURS))
            } else {
                None
            };
            RequestPlan::SaveState(*state)
        },
    }
}

/// Takes in how writing `candidate` went: once written it becomes the
/// configuration and clears any configuration error; a failed write changes
/// nothing and is answered with its cause.
pub fn update_config(
    config: &mut Config,
    config_error: &mut Option<String>,
    candidate: Config,
    saved: Result<(), ConfigSaveError>,
) -> (response: Response)
    ensures
        match saved {
            Ok(()) => *final(config) == candidate && (*final(config_error)) is None && response is Done,
            Err(e) => *final(config) == *old(config) && *final(config_error) == *old(config_error)
                && (response matches Response::Error(m) && m@ == "Failed to save config: "@ + save_error_message(e)),
        },
{
    match saved {
        Ok(()) => {
            *config = candidate;
            *config_error = None;
            Response::Done
        },
        Err(err) => {
            let cause = err.message();
            Response::Error(prefixed("Failed to save config: ", cause.as_str()))
        },
    }
}

/// Takes in what reading the configuration file again gave: a configuration
/// read replaces the one in force and clears the configuration error; a failed
/// read keeps the configuration in force, becomes the configuration error and
/// is answered with its cause.
pub fn reload_config(
    config: &mut Config,
    config_error: &mut Option<String>,
    loaded: Result<Config, ConfigLoadError>,
) -> (response: Response)
    ensures
        match loaded {
            Ok(cfg) => *final(config) == cfg && (*final(config_error)) is None && response is Done,
            Err(e) => *final(config) == *old(config) && ((*final(config_error)) matches Some(m) && m@
                == load_error_message(e)) && (response matches Response::Error(m) && m@
                == "Failed to reload config: "@ + load_error_message(e)),
        },
{
    match loaded {
        Ok(cfg) => {
            *config = cfg;
            *config_error = None;
            Response::Done
        },
        Err(err) => {
            let cause = err.message();
            *config_error = Some(cause.clone());
            Response::Error(prefixed("Failed to reload config: ", cause.as_str()))
        },
    }
}

/// Answers a boost request after writing the state: done, or the cause of the
/// failed write.
pub fn state_saved(saved: Result<(), ConfigSaveError>) -> (response: Response)
    ensures
        match saved {
            Ok(()) => response is Done,
            Err(e) => response matches Response::Error(m) && m@ == "Failed to save state: "@ + save_error_message(e),
        },
{
    match saved {
        Ok(()) => Response::Done,
        Err(err) => {
            let cause = err.message();
            Response::Error(prefixed("Failed to save state: ", cause.as_str()))
        },
    }
}

/// The answer to a message that could not be received, if any. A body that is
/// not a valid request is answered with the decoder's explanation; after an
/// oversized or truncated frame the stream cannot be trusted, so the client is
/// dropped without an answer.
pub fn reject_request(err: &IpcError) -> (response: Option<Response>)
    ensures
        match err {
            IpcError::Json(cause) => response matches Some(Response::Error(m)) && m@ == "Invalid request: "@ + cause@,
            _ => response is None,
        },
{
    match err {
        IpcError::Json(cause) => Some(Response::Error(prefixed("Invalid request: ", cause.as_str()))),
        _ => None,
    }
}

/// The whole seconds of an optional instant.
pub open spec fn epoch_seconds(t: Option<Timestamp>) -> Option<i64> {
    match t {
        Some(t) => Some(t.seconds),
        None => None,
    }
}

fn seconds_of(t: Option<Timestamp>) -> (s: Option<i64>)
    ensures
        s == epoch_seconds(t),
{
    match t {
        Some(t) => Some(t.seconds),
        None => None,
    }
}

/// The status report, given the configuration and state in force, the time,
/// what reading the battery gave and the errors reported so far.
pub fn service_status(
    cfg: &Config,
    state: &State,
    now: Timestamp,
    battery_health: Option<u32>,
    battery_charge: Option<u32>,
    applied_threshold: Option<u32>,
    threshold_error: &Option<String>,
    config_error: &Option<String>,
) -> (status: ServiceStatus)
    requires
        state.valid(),
        now.valid(),
    ensures
        status.charge_limit == cfg.charge_limit,
        status.enable_periodic_full_charge == cfg.enable_periodic_full_charge,
        status.full_charge_period == cfg.full_charge_period,
        status.battery_health == battery_health,
        status.battery_charge == battery_charge,
        status.applied_threshold == applied_threshold,
        status.boost_until == epoch_seconds(state.boost_until),
        status.last_full_charge == epoch_seconds(state.last_full_charge),
        status.calibration_active == full_charge_due(*cfg, state.last_full_charge, now),
        status.threshold_error == *threshold_error,
        status.config_error == *config_error,
{
    ServiceStatus {
        charge_limit: cfg.charge_limit,
        enable_periodic_full_charge: cfg.enable_periodic_full_charge,
        full_charge_period: cfg.full_charge_period,
        battery_health,
        battery_charge,
        applied_threshold,
        boost_until: seconds_of(state.boost_until),
        last_full_charge: seconds_of(state.last_full_charge),
        calibration_active: needs_full_charge(cfg, state, now),
        threshold_error: threshold_error.clone(),
        config_error: config_error.clone(),
    }
}

/// A setting the daemon accepted and wrote is what the next status report
/// shows: each setter changes its own setting and nothing else.
pub proof fn accepted_setting_is_reported(request: Request, cfg: Config)
    requires
        requested_config(request, cfg) is Some,
    ensures
        ({
            let c = requested_config(request, cfg).unwrap();
            match request {
                Request::SetChargeLimit(limit) => c == Config { charge_limit: limit, ..cfg },
                Request::SetPeriodicFullCharge(enable) => c == Config { enable_periodic_full_charge: enable, ..cfg },
                Request::SetFullChargePeriod(days) => c == Config { full_charge_period: days, ..cfg },
                Request::SetWifiPowerSave(v) => c == Config { disable_wifi_power_save_on_ac: v, ..cfg },
                _ => false,
            }
        }),
        requested_config(request, cfg).unwrap().charge_limit != cfg.charge_limit ==> charge_limit_in_range(
            requested_config(request, cfg).unwrap().charge_limit,
        ),
{
}

/// A boost started at `now` charges a battery that is not full to 100% at any
/// later moment before it runs out, whatever the configuration; a cancelled
/// boost is no longer in force.
pub proof fn boost_request_takes_effect(cfg: Config, state: State, now: Timestamp, later: Timestamp, capacity: u32)
    requires
        boost_fits(now),
        later.instant() < now.instant() + BOOST_DURATION_HOURS * 3_600_000_000_000,
        capacity < 100,
    ensures
        boost_in_force(boosted_state(state, true, now), capacity, later),
        decision(cfg, boosted_state(state, true, now), capacity, later).target_threshold == FULL_THRESHOLD,
        !boost_in_force(boosted_state(state, false, now), capacity, later),
{
}

} // verus!
