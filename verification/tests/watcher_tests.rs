use pilipili_strm::watcher::{
    EventKind, FileWatcher, StartStage, WatcherAction, WatcherState, MIN_DEBOUNCE_MS,
};

fn running() -> FileWatcher {
    let mut w = FileWatcher::with_home("/srv/media", 2000, None);
    assert_eq!(w.resume(), Ok(WatcherAction::Start));
    assert_eq!(w.started(Ok(())), Ok(()));
    assert_eq!(w.get_state(), WatcherState::Running);
    w
}

#[test]
fn debounce_is_clamped_to_two_seconds() {
    assert_eq!(MIN_DEBOUNCE_MS, 2000);
    assert_eq!(FileWatcher::with_home("/srv/media", 0, None).debounce_ms, 2000);
    assert_eq!(FileWatcher::with_home("/srv/media", 1999, None).debounce_ms, 2000);
    assert_eq!(FileWatcher::with_home("/srv/media", 2000, None).debounce_ms, 2000);
    assert_eq!(FileWatcher::with_home("/srv/media", 5000, None).debounce_ms, 5000);
    assert_eq!(FileWatcher::with_home("/srv/media", u64::MAX, None).debounce_ms, u64::MAX);
}

#[test]
fn a_new_watcher_is_stopped_and_expands_its_path() {
    let w = FileWatcher::with_home("~/Downloads/Tests", 5000, Some("/home/alice".to_string()));
    assert_eq!(w.path, "/home/alice/Downloads/Tests");
    assert_eq!(w.get_state(), WatcherState::Stopped);
    assert_eq!(w.last_event, None);
    assert!(!w.get_should_exit());
    assert!(!w.released);
    assert!(!w.subscribed);
    let w = FileWatcher::new("/srv/media", 100);
    assert_eq!(w.path, "/srv/media");
    assert_eq!(w.debounce_ms, 2000);
}

#[test]
fn burst_collapses_to_last_kind() {
    let mut w = running();
    w.on_event(EventKind::Created);
    w.on_event(EventKind::Modified);
    w.on_event(EventKind::Removed);
    assert_eq!(w.on_tick(), Some(EventKind::Removed));
    assert_eq!(w.on_tick(), None);
    w.on_event(EventKind::Other);
    assert_eq!(w.on_tick(), Some(EventKind::Other));
    assert_eq!(w.on_tick(), None);
}

#[test]
fn quiet_window_is_silent() {
    let mut w = running();
    assert_eq!(w.on_tick(), None);
    assert_eq!(w.on_tick(), None);
    let mut fresh = FileWatcher::with_home("/srv/media", 2000, None);
    assert_eq!(fresh.on_tick(), None);
}

#[test]
fn resume_is_a_no_op_when_running() {
    let mut w = running();
    w.on_event(EventKind::Created);
    assert_eq!(w.resume(), Ok(WatcherAction::Nothing));
    assert_eq!(w.get_state(), WatcherState::Running);
    assert_eq!(w.last_event, Some(EventKind::Created));
}

#[test]
fn the_subscription_lives_from_start_to_stop() {
    let mut w = FileWatcher::with_home("/srv/media", 2000, None);
    assert_eq!(w.resume(), Ok(WatcherAction::Start));
    assert!(!w.subscribed);
    assert_eq!(w.started(Ok(())), Ok(()));
    assert!(w.subscribed);
    w.pause();
    assert!(w.subscribed);
    assert_eq!(w.resume(), Ok(WatcherAction::Resumed));
    assert!(w.subscribed);
    w.stop();
    assert!(!w.subscribed);
}

#[test]
fn pause_only_affects_a_running_watcher() {
    let mut fresh = FileWatcher::with_home("/srv/media", 2000, None);
    assert_eq!(fresh.pause(), WatcherAction::Nothing);
    assert_eq!(fresh.get_state(), WatcherState::Stopped);
    let mut w = running();
    assert_eq!(w.pause(), WatcherAction::Suspended);
    assert_eq!(w.get_state(), WatcherState::Paused);
    assert_eq!(w.pause(), WatcherAction::Nothing);
    assert_eq!(w.get_state(), WatcherState::Paused);
}

#[test]
fn events_during_a_pause_are_dropped_on_resume() {
    let mut w = running();
    w.on_event(EventKind::Created);
    assert_eq!(w.pause(), WatcherAction::Suspended);
    w.on_event(EventKind::Removed);
    assert_eq!(w.on_tick(), None);
    assert_eq!(w.resume(), Ok(WatcherAction::Resumed));
    assert_eq!(w.get_state(), WatcherState::Running);
    assert_eq!(w.on_tick(), None);
    w.on_event(EventKind::Modified);
    assert_eq!(w.on_tick(), Some(EventKind::Modified));
}

#[test]
fn stop_is_idempotent_and_terminal() {
    let mut w = running();
    w.on_event(EventKind::Created);
    assert_eq!(w.stop(), WatcherAction::Release);
    assert_eq!(w.get_state(), WatcherState::Stopped);
    assert_eq!(w.stop(), WatcherAction::Nothing);
    assert_eq!(w.get_state(), WatcherState::Stopped);
    assert_eq!(w.resume(), Err("Watcher was stopped; create a new one".to_string()));
    assert_eq!(w.started(Ok(())), Ok(()));
    assert_eq!(w.get_state(), WatcherState::Stopped);
    assert_eq!(w.pause(), WatcherAction::Nothing);
    w.on_event(EventKind::Created);
    assert_eq!(w.on_tick(), None);
    assert_eq!(w.get_state(), WatcherState::Stopped);
}

#[test]
fn stopping_a_watcher_that_never_ran_changes_nothing() {
    let mut w = FileWatcher::with_home("/srv/media", 2000, None);
    assert_eq!(w.stop(), WatcherAction::Nothing);
    assert_eq!(w.resume(), Ok(WatcherAction::Start));
    let mut paused = running();
    paused.pause();
    assert_eq!(paused.stop(), WatcherAction::Release);
}

#[test]
fn a_failed_start_leaves_the_watcher_stopped() {
    let mut w = FileWatcher::with_home("/srv/media", 2000, None);
    assert_eq!(w.resume(), Ok(WatcherAction::Start));
    let message = w.start_error(StartStage::WatchPath, "denied");
    assert_eq!(message, "Failed to watch path /srv/media: denied");
    assert_eq!(w.started(Err(message.clone())), Err(message));
    assert_eq!(w.get_state(), WatcherState::Stopped);
    assert_eq!(w.resume(), Ok(WatcherAction::Start));
    assert_eq!(w.start_error(StartStage::CreateDirectory, "e"), "Failed to create directory /srv/media: e");
    assert_eq!(w.start_error(StartStage::CreateWatcher, "e"), "Failed to create watcher: e");
}

#[test]
fn cancellation_is_a_flag() {
    let mut w = running();
    assert!(!w.on_cancel_poll());
    w.request_exit();
    assert!(w.get_should_exit());
    assert!(w.on_cancel_poll());
    assert_eq!(w.get_state(), WatcherState::Running);
}

#[test]
fn states_have_names() {
    assert_eq!(WatcherState::Running.to_text(), "Running");
    assert_eq!(WatcherState::Paused.to_text(), "Paused");
    assert_eq!(WatcherState::Stopped.to_text(), "Stopped");
}
