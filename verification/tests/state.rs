use zenbookd::config::{ConfigLoadError, ConfigSaveError};
use zenbookd::state::{load_initial_state, FlushStep, PersistentState, State, FLUSH_ATTEMPTS};
use zenbookd::time::Timestamp;

#[test]
fn sync_after_write_clears_dirty_when_unchanged() {
    let mut state = PersistentState::new(State::default());
    state.mark_dirty();

    let snapshot = *state.data();
    state.sync_after_write(&snapshot);

    assert!(!state.is_dirty());
}

#[test]
fn sync_after_write_keeps_dirty_when_diverged() {
    let mut state = PersistentState::new(State::default());
    let snapshot = *state.data();

    state.data_mut().wifi_power_save_restore = Some(true);
    state.sync_after_write(&snapshot);

    assert!(state.is_dirty());
}

#[test]
fn a_clean_state_has_nothing_to_write() {
    let state = PersistentState::new(State::default());
    assert_eq!(state.snapshot_if_dirty(), None);
}

#[test]
fn a_dirty_state_hands_out_its_data_and_a_written_snapshot_settles_it() {
    let mut state = PersistentState::new(State::default());
    state.data_mut().boost_until = Some(Timestamp::from_unix_seconds(1_768_478_400));
    assert!(!state.is_dirty());
    state.mark_dirty();

    let snapshot = state.snapshot_if_dirty().unwrap();
    assert_eq!(snapshot, *state.data());

    state.sync_after_write(&snapshot);
    assert!(!state.is_dirty());
    assert_eq!(state.snapshot_if_dirty(), None);
}

#[test]
fn set_data_keeps_the_dirty_mark() {
    let mut state = PersistentState::new(State::default());
    let changed = State { wifi_power_save_restore: Some(false), ..State::default() };
    state.set_data(changed);
    assert!(!state.is_dirty());
    assert_eq!(*state.data(), changed);
}

#[test]
fn an_unreadable_state_file_starts_fresh() {
    assert_eq!(load_initial_state(Err(ConfigLoadError::NotFound)), State::default());
    assert_eq!(load_initial_state(Err(ConfigLoadError::Invalid("x".to_string()))), State::default());
    let kept = State { wifi_power_save_restore: Some(true), ..State::default() };
    assert_eq!(load_initial_state(Ok(kept)), kept);
}

#[test]
fn an_empty_state_records_nothing() {
    let state = State::default();
    assert!(state.last_full_charge.is_none());
    assert!(state.boost_until.is_none());
    assert!(state.wifi_power_save_restore.is_none());
}

#[test]
fn a_flush_retries_only_while_the_state_keeps_changing() {
    let mut state = PersistentState::new(State::default());
    state.mark_dirty();
    let written = state.snapshot_if_dirty().unwrap();

    assert_eq!(state.after_write(&written, &Ok(()), 0), FlushStep::Done);
    assert!(!state.is_dirty());

    state.set_wifi_restore(Some(true));
    let stale = State::default();
    assert_eq!(state.after_write(&stale, &Ok(()), 0), FlushStep::Retry);
    assert!(state.is_dirty());
    assert_eq!(state.after_write(&stale, &Ok(()), FLUSH_ATTEMPTS - 1), FlushStep::GiveUp);

    let failed = Err(ConfigSaveError::IoError("read-only file system".to_string()));
    assert_eq!(state.after_write(&stale, &failed, 0), FlushStep::GiveUp);
    assert!(state.is_dirty());
    assert_eq!(state.data().wifi_power_save_restore, Some(true));
}
