use hanami_companion::app_state::{initial_snapshot, AuthState, CompanionSnapshot, OsuState, TosuConnection};
use hanami_companion::auth::client::AuthConfig;
use hanami_companion::commands::{
    auto_start_after_probe, auto_start_considered, auto_start_continues, auto_start_wanted,
    AutoStartStep, AUTO_START_PROBES, externally_running, launch_allowed,
    launch_failure_message, restart_failure_message, set_auth_state, set_tosu_auto_start,
    set_tracking_enabled, show_executable_reset, show_executable_selected, show_launch_failed,
    show_launched, show_memory_access_granted, show_memory_access_refused, show_restart_failed,
    show_stopped,
};
use hanami_companion::settings::{AppSettings, StoredSettings};
use hanami_companion::tosu::process::{ProcessError, TosuMemoryAccess};

fn snapshot() -> CompanionSnapshot {
    let settings = AppSettings::from_stored("/tmp/settings.json".into(), StoredSettings::default());
    let auth = AuthConfig::from_override(None, true);
    initial_snapshot(&settings, &auth, Some("/usr/bin/tosu".into()), TosuMemoryAccess::Unknown, "0.1.0".into())
}

#[test]
fn pausing_tracking_disables_the_connection_and_hides_osu() {
    let mut shown = snapshot();
    shown.osu.running = true;
    shown.osu.state = OsuState::Gameplay;
    set_tracking_enabled(&mut shown, false);
    assert!(!shown.tracking_enabled);
    assert_eq!(shown.tosu.connection, TosuConnection::Disabled);
    assert!(!shown.osu.running);
    assert_eq!(shown.osu.state, OsuState::Unknown);
    set_tracking_enabled(&mut shown, true);
    assert_eq!(shown.tosu.connection, TosuConnection::Searching);
}

#[test]
fn launching_is_refused_while_paused_or_running_elsewhere() {
    let mut shown = snapshot();
    assert!(launch_allowed(&shown).is_ok());
    shown.tosu.connection = TosuConnection::Stale;
    assert_eq!(launch_allowed(&shown), Err("tosu is already running outside Companion".to_string()));
    shown.tosu.process_owned = true;
    assert!(launch_allowed(&shown).is_ok());
    shown.tracking_enabled = false;
    assert_eq!(
        launch_allowed(&shown),
        Err("Resume tracking before launching tosu so Companion can detect an existing process".to_string())
    );
}

#[test]
fn a_launched_tosu_is_owned_and_awaited() {
    let mut shown = snapshot();
    show_launched(&mut shown, TosuMemoryAccess::Available);
    assert!(shown.tosu.process_owned);
    assert_eq!(shown.tosu.connection, TosuConnection::Searching);
    assert_eq!(shown.tosu.message.as_deref(), Some("tosu was launched; waiting for its v2 API"));
    shown.tracking_enabled = false;
    show_launched(&mut shown, TosuMemoryAccess::Available);
    assert_eq!(shown.tosu.connection, TosuConnection::Disabled);
    assert_eq!(shown.tosu.message.as_deref(), Some("tosu was launched; Companion tracking is paused"));
}

#[test]
fn launch_failures_are_explained() {
    assert_eq!(
        launch_failure_message(&ProcessError::NotInstalled),
        "tosu was not found at the selected path or on PATH"
    );
    assert_eq!(
        launch_failure_message(&ProcessError::AlreadyRunning),
        "Companion already owns a running tosu process"
    );
    let mut shown = snapshot();
    show_launch_failed(&mut shown, "boom".into());
    assert_eq!(shown.tosu.connection, TosuConnection::Error);
    assert_eq!(shown.tosu.message.as_deref(), Some("boom"));
}

#[test]
fn stopping_clears_the_owned_process() {
    let mut shown = snapshot();
    shown.tosu.process_owned = true;
    shown.osu.running = true;
    show_stopped(&mut shown);
    assert!(!shown.tosu.process_owned);
    assert!(!shown.osu.running);
    assert_eq!(shown.tosu.message.as_deref(), Some("Companion-owned tosu was stopped"));
}

#[test]
fn automatic_start_waits_for_a_free_executable() {
    let mut shown = snapshot();
    assert!(auto_start_considered(true, &shown));
    assert!(!auto_start_considered(false, &shown));
    assert!(auto_start_wanted(&shown));
    shown.tosu.connection = TosuConnection::Connecting;
    assert!(!auto_start_wanted(&shown));
    shown.tosu.connection = TosuConnection::Unavailable;
    shown.tosu.process_owned = true;
    assert!(!auto_start_wanted(&shown));
    set_tosu_auto_start(&mut shown, false);
    assert!(!shown.tosu.auto_start);
}

#[test]
fn granting_memory_access_reports_what_happened_to_tosu() {
    let mut shown = snapshot();
    shown.tosu.connection = TosuConnection::Connected;
    assert!(externally_running(&shown));
    show_memory_access_granted(&mut shown, false, true);
    assert_eq!(shown.tosu.memory_access, TosuMemoryAccess::Available);
    assert_eq!(
        shown.tosu.message.as_deref(),
        Some("Memory access granted; restart the externally managed tosu process")
    );
    show_memory_access_granted(&mut shown, true, false);
    assert!(shown.tosu.process_owned);
    assert_eq!(shown.tosu.message.as_deref(), Some("Memory access granted; Companion restarted tosu"));
    let message = restart_failure_message(&ProcessError::Launch("denied".into()));
    assert_eq!(message, "Memory access was granted, but tosu could not restart: failed to launch tosu: denied");
    show_restart_failed(&mut shown, message);
    assert!(!shown.tosu.process_owned);
    show_memory_access_refused(&mut shown, TosuMemoryAccess::Unavailable, "no".into());
    assert_eq!(shown.tosu.memory_access, TosuMemoryAccess::Unavailable);
}

#[test]
fn executable_choices_are_shown() {
    let mut shown = snapshot();
    show_executable_selected(&mut shown, "/opt/tosu/tosu".into());
    assert!(shown.tosu.executable_configured);
    assert_eq!(shown.tosu.executable_path.as_deref(), Some("/opt/tosu/tosu"));
    show_executable_reset(&mut shown, None);
    assert!(!shown.tosu.executable_configured);
    assert!(!shown.tosu.executable_available);
    assert_eq!(shown.tosu.message.as_deref(), Some("tosu executable discovery was reset to PATH"));
}

#[test]
fn auth_states_are_shown_with_their_message() {
    let mut shown = snapshot();
    set_auth_state(&mut shown, AuthState::SignedIn, Some("Connected to Hanami".into()));
    assert_eq!(shown.auth.state, AuthState::SignedIn);
    assert_eq!(shown.auth.message.as_deref(), Some("Connected to Hanami"));
}

#[test]
fn the_initial_snapshot_reflects_settings_and_instance() {
    let stored = StoredSettings { tosu_port: 0, tosu_executable: Some("/opt/tosu".into()), tosu_auto_start: false };
    let settings = AppSettings::from_stored("/tmp/s.json".into(), stored);
    let auth = AuthConfig::from_override(None, true);
    let shown = initial_snapshot(&settings, &auth, None, TosuMemoryAccess::NotApplicable, "0.1.0".into());
    assert!(shown.tracking_enabled);
    assert_eq!(shown.tosu.port, 24_050);
    assert!(shown.tosu.executable_configured);
    assert!(!shown.tosu.executable_available);
    assert!(!shown.tosu.auto_start);
    assert_eq!(shown.auth.base_url, "https://hanami.yorunoken.com");
    assert!(shown.auth.is_production);
    assert_eq!(shown.auth.state, AuthState::SignedOut);
}

#[test]
fn auto_start_probes_four_times_before_deciding() {
    assert_eq!(AUTO_START_PROBES, 4);
    assert_eq!(auto_start_after_probe(0, false), AutoStartStep::RetryAfter(400));
    assert_eq!(auto_start_after_probe(2, false), AutoStartStep::RetryAfter(400));
    assert_eq!(auto_start_after_probe(3, false), AutoStartStep::Decide);
    assert_eq!(auto_start_after_probe(0, true), AutoStartStep::GiveUp);
    assert_eq!(auto_start_after_probe(3, true), AutoStartStep::GiveUp);
}

#[test]
fn auto_start_stops_on_shutdown_or_when_disabled() {
    assert!(auto_start_continues(false, true));
    assert!(!auto_start_continues(true, true));
    assert!(!auto_start_continues(false, false));
}
