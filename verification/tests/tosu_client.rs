use hanami_companion::ws_client::{flag_changed, TosuConnectionState};
use hanami_companion::activity::ActivityTracker;
use hanami_companion::app_state::{initial_snapshot, CompanionSnapshot, OsuState, TosuConnection};
use hanami_companion::auth::client::AuthConfig;
use hanami_companion::settings::{AppSettings, StoredSettings};
use hanami_companion::tosu::client::{
    clear_displayed_osu_state, mark_disconnected, mark_memory_access_possibly_required,
    refresh_process_state, set_connected_without_osu, set_connection, set_socket_failure,
    set_unavailable, listener_step, ConnectionHealth, ListenerAction, ListenerBackoff, ListenerEvent,
    ListenerUpdate, ListenerWait, MonitorEnd, MonitorStep, SocketMessage,
    SocketMonitor, MAX_VALID_STATE_SILENCE_MS,
};
use hanami_companion::tosu::model::{RawBeatmap, RawNumberName, RawTosuPayload};
use hanami_companion::tosu::process::TosuMemoryAccess;

fn snapshot() -> CompanionSnapshot {
    let settings = AppSettings::from_stored("/tmp/settings.json".into(), StoredSettings::default());
    let auth = AuthConfig::from_override(None, true);
    initial_snapshot(&settings, &auth, Some("/usr/bin/tosu".into()), TosuMemoryAccess::Unknown, "0.1.0".into())
}

fn gameplay_payload() -> RawTosuPayload {
    RawTosuPayload {
        client: Some("lazer".into()),
        state: RawNumberName { number: Some(2), name: Some("play".into()) },
        beatmap: RawBeatmap {
            id: Some(1234),
            title: Some("A map".into()),
            checksum: Some("checksum".into()),
            ..RawBeatmap::default()
        },
        ..RawTosuPayload::default()
    }
}

#[test]
fn valid_state_timeout_is_distinct_from_a_stale_transport() {
    let opened = 1_000;
    let mut health = ConnectionHealth::new(opened);
    health.record_valid_state(opened + 1_000);
    health.record_activity(opened + 9_000);
    assert!(!health.transport_is_stale(opened + 12_000));
    assert!(health.valid_state_timed_out(opened + 12_000));
}

#[test]
fn websocket_activity_keeps_an_idle_tosu_transport_healthy() {
    let opened = 1_000;
    let mut health = ConnectionHealth::new(opened);
    health.record_activity(opened + 9_000);
    assert!(!health.transport_is_stale(opened + MAX_VALID_STATE_SILENCE_MS));
    assert!(health.valid_state_timed_out(opened + MAX_VALID_STATE_SILENCE_MS));
    assert!(health.transport_is_stale(opened + 24_000));
}

#[test]
fn an_earlier_clock_reading_counts_as_no_time_passed() {
    let health = ConnectionHealth::new(50_000);
    assert!(!health.transport_is_stale(0));
    assert!(!health.valid_state_timed_out(0));
}

#[test]
fn listener_backoff_doubles_to_its_limit() {
    let mut backoff = ListenerBackoff::new();
    let mut seen = vec![backoff.delay_ms];
    for _ in 0..6 {
        backoff.grow();
        seen.push(backoff.delay_ms);
    }
    assert_eq!(seen, vec![500, 1_000, 2_000, 4_000, 8_000, 8_000, 8_000]);
    backoff.after_monitor(MonitorEnd::TrackingDisabled);
    assert_eq!(backoff.delay_ms, 8_000);
    backoff.after_monitor(MonitorEnd::Disconnected);
    assert_eq!(backoff.delay_ms, 500);
    backoff.after_monitor(MonitorEnd::Stale);
    assert_eq!(backoff.delay_ms, 1_000);
    backoff.after_monitor(MonitorEnd::Incompatible);
    assert_eq!(backoff.delay_ms, 2_000);
}

#[test]
fn usable_frames_are_shown_and_published_at_most_every_125_ms() {
    let mut monitor = SocketMonitor::new(0, true);
    let mut shown = snapshot();
    let mut activity = ActivityTracker::new();
    let step = monitor.on_message(10, SocketMessage::Text(Ok(gameplay_payload())), &mut shown, &mut activity);
    assert_eq!(step, MonitorStep { close: false, publish: true, log_payload_error: false, end: None });
    assert_eq!(shown.tosu.connection, TosuConnection::Connected);
    assert!(shown.osu.running);
    assert_eq!(shown.osu.state, OsuState::Gameplay);
    assert_eq!(shown.now_playing.as_ref().expect("beatmap").beatmap.beatmap_id, Some(1234));
    assert!(shown.live_play.is_some());
    let step = monitor.on_message(100, SocketMessage::Text(Ok(gameplay_payload())), &mut shown, &mut activity);
    assert!(!step.publish);
    let step = monitor.on_message(135, SocketMessage::Text(Ok(gameplay_payload())), &mut shown, &mut activity);
    assert!(step.publish);
    assert_eq!(monitor.health.last_valid_state_ms, Some(135));
}

#[test]
fn a_not_ready_report_shows_osu_as_not_running() {
    let mut monitor = SocketMonitor::new(0, true);
    let mut shown = snapshot();
    let mut activity = ActivityTracker::new();
    monitor.on_message(10, SocketMessage::Text(Ok(gameplay_payload())), &mut shown, &mut activity);
    let report = RawTosuPayload {
        error: Some("failed to read address 40000000".into()),
        ..RawTosuPayload::default()
    };
    let step = monitor.on_message(20, SocketMessage::Text(Ok(report)), &mut shown, &mut activity);
    assert!(step.publish);
    assert!(step.end.is_none());
    assert!(monitor.idle_state_applied);
    assert_eq!(shown.tosu.connection, TosuConnection::Connected);
    assert!(!shown.osu.running);
    assert!(shown.now_playing.is_none());
    assert_eq!(shown.tosu.memory_access, TosuMemoryAccess::PossiblyRequired);
    assert_eq!(
        shown.tosu.message.as_deref(),
        Some("tosu reported a Linux memory-access problem while reading osu!")
    );
}

#[test]
fn memory_problems_are_only_reported_on_linux() {
    let mut monitor = SocketMonitor::new(0, false);
    let mut shown = snapshot();
    let mut activity = ActivityTracker::new();
    let report = RawTosuPayload { error: Some("cap_sys_ptrace missing".into()), ..RawTosuPayload::default() };
    monitor.on_message(20, SocketMessage::Text(Ok(report)), &mut shown, &mut activity);
    assert_eq!(shown.tosu.memory_access, TosuMemoryAccess::Unknown);
}

#[test]
fn three_unexpected_payloads_end_the_connection() {
    let mut monitor = SocketMonitor::new(0, true);
    let mut shown = snapshot();
    let mut activity = ActivityTracker::new();
    let odd = || RawTosuPayload::default();
    let first = monitor.on_message(1, SocketMessage::Text(Ok(odd())), &mut shown, &mut activity);
    assert_eq!(first, MonitorStep { close: false, publish: false, log_payload_error: true, end: None });
    let second = monitor.on_message(2, SocketMessage::Text(Err("bad json".into())), &mut shown, &mut activity);
    assert_eq!(second, MonitorStep { close: false, publish: false, log_payload_error: false, end: None });
    let third = monitor.on_message(3, SocketMessage::Text(Ok(odd())), &mut shown, &mut activity);
    assert_eq!(
        third,
        MonitorStep { close: true, publish: true, log_payload_error: false, end: Some(MonitorEnd::Incompatible) }
    );
    assert_eq!(shown.tosu.connection, TosuConnection::Error);
    assert_eq!(shown.tosu.message.as_deref(), Some("tosu repeatedly returned an unexpected v2 payload"));
}

#[test]
fn usable_state_resets_the_unexpected_count() {
    let mut monitor = SocketMonitor::new(0, true);
    let mut shown = snapshot();
    let mut activity = ActivityTracker::new();
    monitor.on_message(1, SocketMessage::Text(Ok(RawTosuPayload::default())), &mut shown, &mut activity);
    monitor.on_message(2, SocketMessage::Text(Ok(RawTosuPayload::default())), &mut shown, &mut activity);
    monitor.on_message(3, SocketMessage::Text(Ok(gameplay_payload())), &mut shown, &mut activity);
    assert_eq!(monitor.consecutive_unexpected, 0);
    let step = monitor.on_message(4, SocketMessage::Text(Ok(RawTosuPayload::default())), &mut shown, &mut activity);
    assert!(step.end.is_none());
}

#[test]
fn the_watchdog_closes_stale_connections_and_idles_silent_ones() {
    let mut monitor = SocketMonitor::new(0, true);
    let mut shown = snapshot();
    let mut activity = ActivityTracker::new();
    monitor.on_message(5_000, SocketMessage::Activity, &mut shown, &mut activity);
    let quiet = monitor.on_watchdog(9_000, &mut shown, &mut activity);
    assert_eq!(quiet, MonitorStep { close: false, publish: false, log_payload_error: false, end: None });
    let idle = monitor.on_watchdog(10_000, &mut shown, &mut activity);
    assert!(idle.publish);
    assert!(monitor.idle_state_applied);
    assert_eq!(shown.tosu.connection, TosuConnection::Connected);
    let again = monitor.on_watchdog(11_000, &mut shown, &mut activity);
    assert!(!again.publish);
    let stale = monitor.on_watchdog(20_000, &mut shown, &mut activity);
    assert_eq!(
        stale,
        MonitorStep { close: true, publish: true, log_payload_error: false, end: Some(MonitorEnd::Stale) }
    );
    assert_eq!(shown.tosu.connection, TosuConnection::Stale);
    assert_eq!(
        shown.tosu.message.as_deref(),
        Some("the tosu connection stopped responding; reconnecting")
    );
}

#[test]
fn closing_frames_heartbeats_and_tracking_end_monitoring() {
    let mut monitor = SocketMonitor::new(0, true);
    let mut shown = snapshot();
    let mut activity = ActivityTracker::new();
    assert_eq!(
        monitor.on_message(1, SocketMessage::Closed, &mut shown, &mut activity).end,
        Some(MonitorEnd::Disconnected)
    );
    assert_eq!(monitor.on_heartbeat(false).end, Some(MonitorEnd::Disconnected));
    assert_eq!(monitor.on_heartbeat(true).end, None);
    let off = monitor.on_tracking_change(false);
    assert!(off.close);
    assert_eq!(off.end, Some(MonitorEnd::TrackingDisabled));
    assert_eq!(monitor.on_tracking_change(true).end, None);
}

#[test]
fn connection_states_are_shown_once() {
    let mut shown = snapshot();
    assert!(set_connection(&mut shown, TosuConnection::Connecting, None));
    assert!(!set_connection(&mut shown, TosuConnection::Connecting, None));
    assert!(set_connected_without_osu(&mut shown));
    assert!(!set_connected_without_osu(&mut shown));
    mark_disconnected(&mut shown);
    assert_eq!(shown.tosu.connection, TosuConnection::Searching);
    assert_eq!(shown.tosu.message.as_deref(), Some("the tosu connection was interrupted; retrying"));
    set_socket_failure(&mut shown, true);
    assert_eq!(shown.tosu.connection, TosuConnection::Error);
    assert_eq!(shown.tosu.message.as_deref(), Some("the tosu v2 WebSocket connection timed out"));
    set_socket_failure(&mut shown, false);
    assert_eq!(
        shown.tosu.message.as_deref(),
        Some("tosu accepted a connection but its v2 WebSocket was unavailable")
    );
}

#[test]
fn an_unavailable_tosu_says_whether_an_executable_exists() {
    let mut shown = snapshot();
    set_unavailable(&mut shown, None, TosuMemoryAccess::Unavailable);
    assert_eq!(shown.tosu.connection, TosuConnection::Unavailable);
    assert!(!shown.tosu.executable_available);
    assert_eq!(
        shown.tosu.message.as_deref(),
        Some("tosu is not running and no executable has been selected or found on PATH")
    );
    set_unavailable(&mut shown, Some("/usr/bin/tosu".into()), TosuMemoryAccess::Unknown);
    assert_eq!(shown.tosu.message.as_deref(), Some("tosu is not running"));
    assert_eq!(shown.tosu.executable_path.as_deref(), Some("/usr/bin/tosu"));
}

#[test]
fn process_state_and_memory_marks_change_only_what_differs() {
    let mut shown = snapshot();
    assert!(!refresh_process_state(&mut shown, false, Some("/usr/bin/tosu".into()), false, TosuMemoryAccess::Unknown));
    assert!(refresh_process_state(&mut shown, true, Some("/usr/bin/tosu".into()), false, TosuMemoryAccess::Unknown));
    assert!(shown.tosu.process_owned);
    assert!(mark_memory_access_possibly_required(&mut shown));
    assert_eq!(shown.tosu.memory_access, TosuMemoryAccess::PossiblyRequired);
    assert!(!mark_memory_access_possibly_required(&mut shown));
    shown.tosu.memory_access = TosuMemoryAccess::Available;
    assert!(mark_memory_access_possibly_required(&mut shown));
    assert_eq!(shown.tosu.memory_access, TosuMemoryAccess::Available);
    clear_displayed_osu_state(&mut shown);
    assert!(!shown.osu.running);
}

#[test]
fn listener_steps_follow_each_event() {
    let mut backoff = ListenerBackoff::new();
    backoff.grow();
    assert_eq!(backoff.delay_ms, 1_000);

    let closed = listener_step(&mut backoff, ListenerEvent::PortClosed);
    assert_eq!(
        closed,
        ListenerAction {
            reset_activity: true,
            update: ListenerUpdate::ShowUnavailable,
            wait: ListenerWait::Backoff,
        }
    );
    assert_eq!(backoff.delay_ms, 1_000);

    let waited = listener_step(&mut backoff, ListenerEvent::WaitEnded { tracking_changed: false });
    assert_eq!(
        waited,
        ListenerAction { reset_activity: false, update: ListenerUpdate::Nothing, wait: ListenerWait::Reconnect }
    );
    assert_eq!(backoff.delay_ms, 2_000);

    listener_step(&mut backoff, ListenerEvent::WaitEnded { tracking_changed: true });
    assert_eq!(backoff.delay_ms, 2_000);

    let failed = listener_step(&mut backoff, ListenerEvent::SocketFailed { timed_out: true });
    assert_eq!(failed.update, ListenerUpdate::ShowSocketFailure { timed_out: true });
    assert_eq!(failed.wait, ListenerWait::BackoffWhileTracking);
    assert!(failed.reset_activity);
    assert_eq!(backoff.delay_ms, 2_000);

    let stale = listener_step(&mut backoff, ListenerEvent::MonitorEnded(MonitorEnd::Stale));
    assert_eq!(stale.update, ListenerUpdate::Nothing);
    assert_eq!(stale.wait, ListenerWait::BackoffWhileTracking);
    assert_eq!(backoff.delay_ms, 4_000);

    let paused = listener_step(&mut backoff, ListenerEvent::MonitorEnded(MonitorEnd::TrackingDisabled));
    assert_eq!(paused.wait, ListenerWait::Reconnect);
    assert_eq!(backoff.delay_ms, 4_000);

    let lost = listener_step(&mut backoff, ListenerEvent::MonitorEnded(MonitorEnd::Disconnected));
    assert_eq!(lost.update, ListenerUpdate::ShowDisconnected);
    assert_eq!(backoff.delay_ms, 500);

    backoff.grow();
    let off = listener_step(&mut backoff, ListenerEvent::TrackingOff);
    assert_eq!(
        off,
        ListenerAction {
            reset_activity: true,
            update: ListenerUpdate::ShowDisabled,
            wait: ListenerWait::UntilTrackingChanges,
        }
    );
    assert_eq!(backoff.delay_ms, 500);
}

#[test]
fn the_listener_backoff_stops_at_its_limit() {
    let mut backoff = ListenerBackoff::new();
    for _ in 0..10 {
        listener_step(&mut backoff, ListenerEvent::WaitEnded { tracking_changed: false });
    }
    assert_eq!(backoff.delay_ms, 8_000);
}

#[test]
fn the_connection_flag_reports_only_changes() {
    assert!(flag_changed(false, true));
    assert!(flag_changed(true, false));
    assert!(!flag_changed(true, true));
    assert!(!flag_changed(false, false));

    let state = TosuConnectionState::default();
    assert!(!state.get());
    assert!(state.set(true));
    assert!(!state.set(true));
    assert!(state.get());
    assert!(state.set(false));
    assert!(!state.get());
}
