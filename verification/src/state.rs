//! What the daemon remembers across restarts, and when it must be written out.

use vstd::prelude::*;

use crate::config::{ConfigLoadError, ConfigSaveError};
use crate::time::Timestamp;

verus! {

/// What `/var/lib/zenbookd/state.toml` holds.
#[derive(Debug, Clone, Copy, PartialEq, Eq, Structural)]
pub struct State {
    /// When the battery was last seen full.
    pub last_full_charge: Option<Timestamp>,
    /// When an active boost ends, if one is active.
    pub boost_until: Option<Timestamp>,
    /// The Wi-Fi power-save setting to put back when leaving AC power, if the
    /// daemon changed it.
    pub wifi_power_save_restore: Option<bool>,
}

/// The state of a machine the daemon has never run on.
pub open spec fn empty_state() -> State {
    State { last_full_charge: None, boost_until: None, wifi_power_save_restore: None }
}

impl Default for State {
    /// Nothing recorded.
    fn default() -> (s: Self)
        ensures
            s == empty_state(),
    {
        State { last_full_charge: None, boost_until: None, wifi_power_save_restore: None }
    }
}

impl State {
    /// Whether every recorded instant is a valid timestamp.
    pub open spec fn valid(self) -> bool {
        &&& (self.last_full_charge matches Some(t) ==> t.valid())
        &&& (self.boost_until matches Some(t) ==> t.valid())
    }
}

/// How many times in a row the state is written out while it keeps changing
/// between taking a copy and writing it.
pub const FLUSH_ATTEMPTS: u32 = 8;

/// What a flush does after one write of the state.
#[derive(Debug, Clone, Copy, PartialEq, Eq, Structural)]
pub enum FlushStep {
    /// What is on disk is the state held.
    Done,
    /// The state changed while it was written; write it again.
    Retry,
    /// Stop: the write failed, or the attempts are used up.
    GiveUp,
}

/// The state together with whether it differs from what is on disk.
#[derive(Debug)]
pub struct PersistentState {
    data: State,
    dirty: bool,
}

impl PersistentState {
    /// The state held.
    pub closed spec fn spec_data(&self) -> State {
        self.data
    }

    /// Whether the state held may differ from what was last written.
    pub closed spec fn spec_dirty(&self) -> bool {
        self.dirty
    }

    /// Holds `data`, taken to be what is on disk.
    pub fn new(data: State) -> (p: Self)
        ensures
            p.spec_data() == data,
            !p.spec_dirty(),
    {
        PersistentState { data, dirty: false }
    }

    /// The state held.
    pub fn data(&self) -> (d: &State)
        ensures
            *d == self.spec_data(),
    {
        &self.data
    }

    /// The state held, for changing in place; the dirty mark is left alone.
    pub fn data_mut(&mut self) -> (d: &mut State)
        ensures
            *d == old(self).spec_data(),
            final(self).spec_data() == *final(d),
            final(self).spec_dirty() == old(self).spec_dirty(),
    {
        &mut self.data
    }

    /// Replaces the state held, leaving the dirty mark alone (as a write
    /// through a mutable borrow of the state does).
    pub fn set_data(&mut self, data: State)
        ensures
            final(self).spec_data() == data,
            final(self).spec_dirty() == old(self).spec_dirty(),
    {
        self.data = data;
    }

    /// Whether the state held may differ from what was last written.
    pub fn is_dirty(&self) -> (dirty: bool)
        ensures
            dirty == self.spec_dirty(),
    {
        self.dirty
    }

    /// Records that the state held must be written out.
    pub fn mark_dirty(&mut self)
        ensures
            final(self).spec_data() == old(self).spec_data(),
            final(self).spec_dirty(),
    {
        self.dirty = true;
    }

    /// Records that `written` reached the disk: the state stays dirty exactly
    /// when it has changed since that copy was taken.
    pub fn sync_after_write(&mut self, written: &State)
        ensures
            final(self).spec_data() == old(self).spec_data(),
            final(self).spec_dirty() == (old(self).spec_data() != *written),
    {
        self.dirty = self.data != *written;
    }

    /// Takes in how writing `written` went, on attempt `attempt` (counting from
    /// zero) of one flush. A failed write gives up and changes nothing. A
    /// successful one leaves the state dirty exactly when it changed since
    /// `written` was taken; the flush is then done when it is clean, and
    /// otherwise tries again, unless that was the last of [`FLUSH_ATTEMPTS`].
    pub fn after_write(&mut self, written: &State, saved: &Result<(), ConfigSaveError>, attempt: u32) -> (step: FlushStep)
        ensures
            final(self).spec_data() == old(self).spec_data(),
            match saved {
                Err(_) => step == FlushStep::GiveUp && final(self).spec_dirty() == old(self).spec_dirty(),
                Ok(()) => final(self).spec_dirty() == (old(self).spec_data() != *written) && step == (if !final(self).spec_dirty() {
                    FlushStep::Done
                } else if attempt + 1 >= FLUSH_ATTEMPTS {
                    FlushStep::GiveUp
                } else {
                    FlushStep::Retry
                }),
            },
    {
        match saved {
            Err(_) => FlushStep::GiveUp,
            Ok(()) => {
                self.sync_after_write(written);
                if !self.dirty {
                    FlushStep::Done
                } else if attempt >= FLUSH_ATTEMPTS - 1 {
                    FlushStep::GiveUp
                } else {
                    FlushStep::Retry
                }
            },
        }
    }

    /// Records `record` as the Wi-Fi power-save setting to put back, and marks
    /// the state to be written out.
    pub fn set_wifi_restore(&mut self, record: Option<bool>)
        ensures
            final(self).spec_data() == (State { wifi_power_save_restore: record, ..old(self).spec_data() }),
            final(self).spec_dirty(),
    {
        self.data.wifi_power_save_restore = record;
        self.dirty = true;
    }

    /// The copy to write out, when there is anything to write.
    pub fn snapshot_if_dirty(&self) -> (s: Option<State>)
        ensures
            s == (if self.spec_dirty() { Some(self.spec_data()) } else { None }),
    {
        if self.dirty {
            Some(self.data)
        } else {
            None
        }
    }
}

/// The state the daemon starts with: what was loaded, or nothing recorded when
/// the file is missing, unreadable or malformed.
pub fn load_initial_state(loaded: Result<State, ConfigLoadError>) -> (s: State)
    ensures
        s == (match loaded {
            Ok(state) => state,
            Err(_) => empty_state(),
        }),
{
    match loaded {
        Ok(state) => state,
        Err(_) => State::default(),
    }
}

} // verus!
