use setup_engine::updates::{
    periodic_update_step, update_version_accepted, AskForUpdatePayload, CouldNotUpdatePayload,
    DownloadProgressPayload, DownloadProgressTracker, PeriodicUpdateSignal, PeriodicUpdateStep,
    UpdateDecision, UpdateError, UpdatesManager, DOWNLOAD_PROGRESS_EMIT_INTERVAL_MILLIS,
    UPDATE_CHECK_INTERVAL_MILLIS,
};

#[test]
fn payload_constructors_carry_their_event_types() {
    let p = DownloadProgressPayload::new(10, 100);
    assert_eq!(p.event_type, "download_progress");
    assert_eq!(p.downloaded, 10);
    assert_eq!(p.total, 100);

    let p = CouldNotUpdatePayload::new("1.2.3".to_string());
    assert_eq!(p.event_type, "could_not_update");
    assert_eq!(p.version, "1.2.3");

    let p = AskForUpdatePayload::new("1.2.3".to_string());
    assert_eq!(p.event_type, "ask_for_update");
    assert_eq!(p.version, "1.2.3");
}

#[test]
fn no_update_found_decides_nothing() {
    let mut manager = UpdatesManager::new("universal".to_string());
    let decision = manager.handle_check_result(None, false, false, false);
    assert!(matches!(decision, UpdateDecision::NoUpdate));
    assert_eq!(manager.pending_update(), Err(UpdateError::NoUpdateAvailable));
}

#[test]
fn locked_screen_under_auto_update_notifies_instead() {
    let mut manager = UpdatesManager::new("universal".to_string());
    let decision = manager.handle_check_result(Some("2.0.0".to_string()), false, true, true);
    match decision {
        UpdateDecision::NotifyCouldNotUpdate(p) => {
            assert_eq!(p.event_type, "could_not_update");
            assert_eq!(p.version, "2.0.0");
        }
        other => panic!("expected a could-not-update notice, got {other:?}"),
    }
    // The update is stored all the same.
    assert_eq!(manager.pending_update(), Ok("2.0.0".to_string()));
}

#[test]
fn forced_update_proceeds_even_without_auto_update() {
    let mut manager = UpdatesManager::new("universal".to_string());
    let decision = manager.handle_check_result(Some("2.0.0".to_string()), true, false, false);
    assert!(matches!(decision, UpdateDecision::Proceed));
}

#[test]
fn auto_update_proceeds_unprompted() {
    let mut manager = UpdatesManager::new("universal".to_string());
    let decision = manager.handle_check_result(Some("2.0.0".to_string()), false, true, false);
    assert!(matches!(decision, UpdateDecision::Proceed));
}

#[test]
fn manual_update_asks_the_user() {
    let mut manager = UpdatesManager::new("universal".to_string());
    let decision = manager.handle_check_result(Some("2.0.0".to_string()), false, false, false);
    match decision {
        UpdateDecision::AskUser(p) => {
            assert_eq!(p.event_type, "ask_for_update");
            assert_eq!(p.version, "2.0.0");
        }
        other => panic!("expected an ask-for-update prompt, got {other:?}"),
    }
}

#[test]
fn updates_url_follows_channel_and_exchange() {
    let manager = UpdatesManager::new("universal".to_string());
    assert_eq!(
        manager.get_updates_url(false),
        "https://raw.githubusercontent.com/tari-project/universe/main/.updater/latest.json"
    );
    assert_eq!(
        manager.get_updates_url(true),
        "https://raw.githubusercontent.com/tari-project/universe/main/.updater/alpha-latest.json"
    );

    let manager = UpdatesManager::new("acme".to_string());
    assert_eq!(
        manager.get_updates_url(false),
        "https://raw.githubusercontent.com/tari-project/universe/main/.updater/latest-acme.json"
    );
    // An exchange-specific build reads its own manifest on every channel.
    assert_eq!(
        manager.get_updates_url(true),
        "https://raw.githubusercontent.com/tari-project/universe/main/.updater/latest-acme.json"
    );
}

#[test]
fn version_acceptance_depends_on_the_downgrade_flag() {
    // Normally only strictly newer versions are accepted.
    assert!(update_version_accepted(false, false, true));
    assert!(!update_version_accepted(false, false, false));
    assert!(!update_version_accepted(false, true, false));
    // With downgrades enabled anything but the current version is.
    assert!(update_version_accepted(true, false, false));
    assert!(update_version_accepted(true, false, true));
    assert!(!update_version_accepted(true, true, false));
}

#[test]
fn download_progress_is_throttled_between_chunks() {
    let mut tracker = DownloadProgressTracker::new();
    // Too soon after the last event, and not the last chunk: nothing.
    assert!(tracker.record_chunk(10, Some(100), 0).is_none());
    assert_eq!(tracker.downloaded, 10);

    // The interval has passed: a payload with the known content length.
    let p = tracker.record_chunk(10, Some(100), DOWNLOAD_PROGRESS_EMIT_INTERVAL_MILLIS).unwrap();
    assert_eq!(p.downloaded, 20);
    assert_eq!(p.total, 100);
    assert_eq!(p.event_type, "download_progress");
}

#[test]
fn last_chunk_always_emits() {
    let mut tracker = DownloadProgressTracker::new();
    tracker.record_chunk(90, Some(100), 0);
    // Reaching the content length emits even with no time elapsed.
    let p = tracker.record_chunk(10, Some(100), 0).unwrap();
    assert_eq!(p.downloaded, 100);
    assert_eq!(p.total, 100);
}

#[test]
fn unknown_content_length_reports_the_running_total() {
    let mut tracker = DownloadProgressTracker::new();
    let p = tracker.record_chunk(30, None, DOWNLOAD_PROGRESS_EMIT_INTERVAL_MILLIS).unwrap();
    assert_eq!(p.downloaded, 30);
    assert_eq!(p.total, 30);
}

#[test]
fn download_total_saturates_instead_of_overflowing() {
    let mut tracker = DownloadProgressTracker::new();
    tracker.record_chunk(u64::MAX, None, 0);
    tracker.record_chunk(u64::MAX, None, 0);
    assert_eq!(tracker.downloaded, u64::MAX);
}

#[test]
fn periodic_loop_stops_on_shutdown_and_checks_on_tick() {
    assert_eq!(
        periodic_update_step(PeriodicUpdateSignal::ShutdownReceived),
        PeriodicUpdateStep::StopChecking
    );
    assert_eq!(
        periodic_update_step(PeriodicUpdateSignal::IntervalElapsed),
        PeriodicUpdateStep::CheckForUpdates
    );
    assert_eq!(UPDATE_CHECK_INTERVAL_MILLIS, 3600000);
}
