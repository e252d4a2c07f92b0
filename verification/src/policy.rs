//! Which charge threshold the battery should be held at, and what the daemon
//! records on the way.

use vstd::prelude::*;

use crate::config::Config;
use crate::state::State;
use crate::time::Timestamp;

verus! {

/// A full battery reads this capacity, in percent.
pub const FULL_CAPACITY: u32 = 100;

/// The threshold that lets the battery charge to full.
pub const FULL_THRESHOLD: u32 = 100;

/// A full charge seen this many minutes or fewer after the recorded one is not
/// recorded again, so that staying at 100% does not rewrite the state file.
pub const FULL_CHARGE_REFRESH_MINUTES: i64 = 60;

/// What one look at the battery concludes.
#[derive(Debug, Clone, Copy, PartialEq, Eq, Structural)]
pub struct Decision {
    /// The end threshold the battery should be held at.
    pub target_threshold: u32,
    /// Whether the state changed and has to be written out.
    pub state_dirty: bool,
}

/// When the last full charge is on record after seeing `capacity` at `now`: a
/// full battery is recorded unless the last record is at most an hour old.
pub open spec fn recorded_full_charge(state: State, capacity: u32, now: Timestamp) -> Option<Timestamp> {
    if capacity >= FULL_CAPACITY && (match state.last_full_charge {
        None => true,
        Some(last) => now.spec_minutes_since(last) > FULL_CHARGE_REFRESH_MINUTES,
    }) {
        Some(now)
    } else {
        state.last_full_charge
    }
}

/// Whether a boost is in force: it has not run out and the battery is not full.
pub open spec fn boost_in_force(state: State, capacity: u32, now: Timestamp) -> bool {
    state.boost_until matches Some(until) && now.instant() < until.instant() && capacity < FULL_CAPACITY
}

/// Whether a periodic full charge is due at `now`, given when the last one was:
/// the feature is on and either no full charge is on record or the period has
/// elapsed (the boundary day included).
pub open spec fn full_charge_due(cfg: Config, last_full_charge: Option<Timestamp>, now: Timestamp) -> bool {
    cfg.enable_periodic_full_charge && (match last_full_charge {
        None => true,
        Some(last) => now.spec_days_since(last) >= cfg.full_charge_period,
    })
}

/// The state after seeing `capacity` at `now`: the full charge recorded, a
/// boost that is no longer in force dropped, the Wi-Fi record untouched.
pub open spec fn decided_state(state: State, capacity: u32, now: Timestamp) -> State {
    State {
        last_full_charge: recorded_full_charge(state, capacity, now),
        boost_until: if boost_in_force(state, capacity, now) { state.boost_until } else { None },
        wifi_power_save_restore: state.wifi_power_save_restore,
    }
}

/// The decision after seeing `capacity` at `now`: charge to full while a boost
/// is in force or a periodic full charge is due, else hold the configured
/// limit; the state is dirty when a full charge was recorded or a boost dropped.
pub open spec fn decision(cfg: Config, state: State, capacity: u32, now: Timestamp) -> Decision {
    let next = decided_state(state, capacity, now);
    Decision {
        target_threshold: if boost_in_force(state, capacity, now) || full_charge_due(cfg, next.last_full_charge, now) {
            FULL_THRESHOLD
        } else {
            cfg.charge_limit
        },
        state_dirty: next.last_full_charge != state.last_full_charge || next.boost_until != state.boost_until,
    }
}

/// Whether a periodic full charge is due at `now` for `state`.
pub fn needs_full_charge(cfg: &Config, state: &State, now: Timestamp) -> (due: bool)
    requires
        state.valid(),
        now.valid(),
    ensures
        due == full_charge_due(*cfg, state.last_full_charge, now),
{
    if !cfg.enable_periodic_full_charge {
        return false;
    }
    match &state.last_full_charge {
        None => true,
        Some(last) => now.days_since(last) >= cfg.full_charge_period as i64,
    }
}

/// Looks at the battery: records a full charge, ends a boost that has run out
/// or is no longer needed, and chooses the threshold to hold the battery at.
pub fn decide(cfg: &Config, state: &mut State, capacity: u32, now: Timestamp) -> (d: Decision)
    requires
        old(state).valid(),
        now.valid(),
    ensures
        *final(state) == decided_state(*old(state), capacity, now),
        d == decision(*cfg, *old(state), capacity, now),
        final(state).valid(),
{
    let mut state_dirty = false;

    if capacity >= FULL_CAPACITY {
        let refresh = match &state.last_full_charge {
            None => true,
            Some(last) => now.minutes_since(last) > FULL_CHARGE_REFRESH_MINUTES,
        };
        if refresh {
            state.last_full_charge = Some(now);
            state_dirty = true;
        }
    }

    let boost_active = match &state.boost_until {
        Some(until) => {
            if now.is_before(until) && capacity < FULL_CAPACITY {
                true
            } else {
                state.boost_until = None;
                state_dirty = true;
                false
            }
        },
        None => false,
    };

    let mut target_threshold = cfg.charge_limit;

    if needs_full_charge(cfg, state, now) {
        target_threshold = FULL_THRESHOLD;
    }

    if boost_active {
        target_threshold = FULL_THRESHOLD;
    }

    Decision { target_threshold, state_dirty }
}

/// The threshold chosen is always either the configured limit or a full
/// charge, so with a limit in range it is one the kernel accepts.
pub proof fn decision_threshold_is_limit_or_full(cfg: Config, state: State, capacity: u32, now: Timestamp)
    ensures
        decision(cfg, state, capacity, now).target_threshold == cfg.charge_limit
            || decision(cfg, state, capacity, now).target_threshold == FULL_THRESHOLD,
        crate::config::charge_limit_in_range(cfg.charge_limit) ==> crate::config::charge_limit_in_range(
            decision(cfg, state, capacity, now).target_threshold,
        ),
{
}

/// A boost in force holds the battery at a full charge, whatever the
/// configuration says.
pub proof fn boost_charges_to_full(cfg: Config, state: State, capacity: u32, now: Timestamp)
    requires
        boost_in_force(state, capacity, now),
    ensures
        decision(cfg, state, capacity, now).target_threshold == FULL_THRESHOLD,
{
}

/// A full battery ends any boost: the boost is dropped from the state.
pub proof fn full_battery_ends_boost(state: State, capacity: u32, now: Timestamp)
    requires
        capacity >= FULL_CAPACITY,
    ensures
        decided_state(state, capacity, now).boost_until is None,
{
}

/// A boost that has run out is dropped and the configured limit comes back,
/// unless a periodic full charge is due; dropping it makes the state dirty.
pub proof fn expired_boost_restores_limit(cfg: Config, state: State, capacity: u32, now: Timestamp)
    requires
        state.boost_until matches Some(until) && until.instant() <= now.instant(),
        !full_charge_due(cfg, decided_state(state, capacity, now).last_full_charge, now),
    ensures
        decided_state(state, capacity, now).boost_until is None,
        decision(cfg, state, capacity, now).target_threshold == cfg.charge_limit,
        decision(cfg, state, capacity, now).state_dirty,
{
}

/// The state is reported dirty exactly when deciding changed it.
pub proof fn dirty_exactly_when_changed(cfg: Config, state: State, capacity: u32, now: Timestamp)
    requires
        now.valid(),
    ensures
        decision(cfg, state, capacity, now).state_dirty == (decided_state(state, capacity, now) != state),
{
}

/// Deciding twice at the same instant with the same capacity changes nothing
/// the second time: the state is left as the first look left it, nothing is
/// dirty, and the same threshold is chosen.
pub proof fn decide_is_settled(cfg: Config, state: State, capacity: u32, now: Timestamp)
    requires
        now.valid(),
    ensures
        decided_state(decided_state(state, capacity, now), capacity, now) == decided_state(state, capacity, now),
        !decision(cfg, decided_state(state, capacity, now), capacity, now).state_dirty,
        decision(cfg, decided_state(state, capacity, now), capacity, now).target_threshold
            == decision(cfg, state, capacity, now).target_threshold,
{
    assert(now.spec_minutes_since(now) == 0);
}

} // verus!
