use hanami_companion::clock::UtcTime;
use hanami_companion::app_state::{initial_snapshot, AuthState, TosuConnection};
use hanami_companion::auth::client::AuthConfig;
use hanami_companion::hanami::{PlayUploader, UnsupportedPlayUploader, UploadError};
use hanami_companion::activity::model::{PlayOutcome, RecentPlay};
use hanami_companion::app_state::BeatmapSummary;
use hanami_companion::renderer::renderer_backend;
use hanami_companion::settings::{AppSettings, StoredSettings};
use hanami_companion::tosu::process::TosuMemoryAccess;
use hanami_companion::tray::{menu_action, tray_menu_view, MenuAction};
use hanami_companion::ws_client::{LegacyLiveness, LegacyMessage, LegacyStep, TosuConnectionState};

#[test]
fn legacy_settings_enable_tosu_auto_start_by_default() {
    let settings = StoredSettings::default();
    assert!(settings.tosu_auto_start);
    assert_eq!(settings.tosu_port, 24_050);
    assert!(settings.tosu_executable.is_none());
}

#[test]
fn settings_changes_are_kept() {
    let mut settings = AppSettings::from_stored(
        "/tmp/settings.json".into(),
        StoredSettings { tosu_port: 24_051, tosu_executable: None, tosu_auto_start: true },
    );
    assert_eq!(settings.endpoint().port(), 24_051);
    settings.set_executable(Some("/opt/tosu/tosu".into()));
    assert_eq!(settings.executable().as_deref(), Some("/opt/tosu/tosu"));
    settings.set_tosu_auto_start(false);
    assert!(!settings.tosu_auto_start());
    assert_eq!(settings.values().tosu_port, 24_051);
    assert_eq!(settings.path(), "/tmp/settings.json");
    let zero = AppSettings::from_stored("/tmp/s.json".into(), StoredSettings { tosu_port: 0, ..StoredSettings::default() });
    assert_eq!(zero.values().tosu_port, 24_050);
}

#[test]
fn the_tray_menu_follows_the_snapshot() {
    let settings = AppSettings::from_stored("/tmp/s.json".into(), StoredSettings::default());
    let auth = AuthConfig::from_override(None, true);
    let mut shown = initial_snapshot(&settings, &auth, None, TosuMemoryAccess::Unknown, "0.1.0".into());
    let view = tray_menu_view(&shown);
    assert_eq!(view.status_label, "tosu: searching");
    assert!(view.tracking_checked);
    assert!(view.launch_enabled);
    assert!(!view.stop_enabled);
    assert!(!view.sign_out_enabled);
    shown.tosu.connection = TosuConnection::Connected;
    shown.tosu.process_owned = true;
    shown.auth.state = AuthState::Refreshing;
    let view = tray_menu_view(&shown);
    assert_eq!(view.status_label, "tosu: connected");
    assert!(!view.launch_enabled);
    assert!(view.stop_enabled);
    assert!(view.sign_out_enabled);
}

#[test]
fn tray_items_map_to_actions() {
    assert_eq!(menu_action("open"), MenuAction::ShowWindow);
    assert_eq!(menu_action("tracking"), MenuAction::ToggleTracking);
    assert_eq!(menu_action("launch-tosu"), MenuAction::LaunchTosu);
    assert_eq!(menu_action("stop-tosu"), MenuAction::StopTosu);
    assert_eq!(menu_action("sign-out"), MenuAction::SignOut);
    assert_eq!(menu_action("quit"), MenuAction::Quit);
    assert_eq!(menu_action("other"), MenuAction::Nothing);
}

#[test]
fn unavailable_uploader_never_claims_success() {
    let uploader = UnsupportedPlayUploader;
    let result = uploader.upload(&RecentPlay {
        id: "test".into(),
        score_id: None,
        beatmap: BeatmapSummary::default(),
        started_at: UtcTime { seconds: 0, nanos: 0 },
        ended_at: UtcTime { seconds: 0, nanos: 0 },
        player_name: None,
        score: 0,
        accuracy_bits: 0.0f64.to_bits(),
        combo: 0,
        misses: 0,
        mods: vec![],
        pp_bits: None,
        completion_ppm: Some(500_000),
        outcome: PlayOutcome::Quit,
        rank: None,
    });
    assert!(matches!(result, Err(UploadError::Unsupported)));
    assert_eq!(
        UploadError::Unsupported.message(),
        "Hanami Web does not expose a play-ingestion endpoint yet"
    );
}

#[test]
fn renderer_backends_follow_the_desktop() {
    assert_eq!(renderer_backend(true, true, "x11", "", false), Some("wayland"));
    assert_eq!(renderer_backend(false, true, "wayland", "GNOME", true), Some("x11"));
    assert_eq!(renderer_backend(false, false, "x11", "KDE", true), None);
    assert_eq!(renderer_backend(false, false, "Wayland", "KDE", true), Some("x11"));
    assert_eq!(renderer_backend(false, false, "wayland", "ubuntu:GNOME", true), None);
    assert_eq!(renderer_backend(false, false, "wayland", "KDE", false), None);
}

#[test]
fn the_connection_flag_reports_changes() {
    let state = TosuConnectionState::default();
    assert!(!state.get());
    assert!(state.set(true));
    assert!(!state.set(true));
    assert!(state.get());
    assert!(state.set(false));
}

#[test]
fn legacy_liveness_needs_pongs_or_json() {
    let mut liveness = LegacyLiveness::new(1_000);
    assert!(!liveness.timed_out(8_999));
    assert!(liveness.timed_out(9_000));
    assert_eq!(liveness.on_message(2_000, &LegacyMessage::Text("not json".into())), LegacyStep::Continue);
    assert_eq!(liveness.on_message(3_000, &LegacyMessage::Text("{\"a\":1}".into())), LegacyStep::Verified);
    assert!(!liveness.timed_out(10_999));
    assert!(liveness.timed_out(11_000));
    assert_eq!(liveness.on_message(4_000, &LegacyMessage::Pong), LegacyStep::Verified);
    assert_eq!(liveness.last_verified_ms, Some(4_000));
    assert_eq!(liveness.on_message(5_000, &LegacyMessage::Other), LegacyStep::Continue);
    assert_eq!(liveness.on_message(6_000, &LegacyMessage::Closed), LegacyStep::Stop);
}
