//! What the user's commands change in the snapshot, and when they are
//! refused.
use vstd::prelude::*;

use crate::app_state::{AuthState, CompanionSnapshot, OsuState, OsuStatus, TosuConnection};
use crate::auth::client::text;
use crate::text::{chars_of, concat_chars, string_of};
use crate::tosu::client::{with_connection, without_osu};
use crate::tosu::model::text_view;
use crate::tosu::process::{process_error_text, ProcessError, TosuMemoryAccess};

verus! {

/// Whether the connection state shows a tosu that is running: connected,
/// connecting or stale.
pub open spec fn tosu_appears_running(connection: TosuConnection) -> bool {
    connection == TosuConnection::Connected || connection == TosuConnection::Connecting
        || connection == TosuConnection::Stale
}

fn appears_running(connection: TosuConnection) -> (r: bool)
    ensures
        r == tosu_appears_running(connection),
{
    match connection {
        TosuConnection::Connected | TosuConnection::Connecting | TosuConnection::Stale => true,
        _ => false,
    }
}

/// The connection state shown while Companion waits for tosu: searching
/// while tracking, disabled otherwise.
pub open spec fn waiting_connection(tracking_enabled: bool) -> TosuConnection {
    if tracking_enabled {
        TosuConnection::Searching
    } else {
        TosuConnection::Disabled
    }
}

/// Turns tracking on or off: the connection is searched for again, or shown
/// as disabled with nothing of osu!.
pub fn set_tracking_enabled(snapshot: &mut CompanionSnapshot, enabled: bool)
    ensures
        ({
            let shown = CompanionSnapshot {
                tracking_enabled: enabled,
                ..with_connection(*old(snapshot), waiting_connection(enabled), None)
            };
            *final(snapshot) == if enabled {
                shown
            } else {
                CompanionSnapshot { osu: OsuStatus { client: old(snapshot).osu.client, ..without_osu(shown).osu }, ..without_osu(shown) }
            }
        }),
{
    snapshot.tracking_enabled = enabled;
    snapshot.tosu.connection = if enabled {
        TosuConnection::Searching
    } else {
        TosuConnection::Disabled
    };
    snapshot.tosu.message = None;
    if !enabled {
        snapshot.osu.running = false;
        snapshot.osu.state = OsuState::Unknown;
        snapshot.now_playing = None;
        snapshot.live_play = None;
    }
}

/// Shows whether tosu is started automatically.
pub fn set_tosu_auto_start(snapshot: &mut CompanionSnapshot, enabled: bool)
    ensures
        *final(snapshot) == (CompanionSnapshot {
            tosu: crate::app_state::TosuStatus { auto_start: enabled, ..old(snapshot).tosu },
            ..*old(snapshot)
        }),
{
    snapshot.tosu.auto_start = enabled;
}

/// Whether an automatic start of tosu should be attempted at all: it is
/// enabled and an executable is available.
pub fn auto_start_considered(enabled: bool, snapshot: &CompanionSnapshot) -> (r: bool)
    ensures
        r == (enabled && snapshot.tosu.executable_available),
{
    enabled && snapshot.tosu.executable_available
}

/// Whether tosu should be started automatically once it was found not to be
/// listening: tracking is on, an executable is available, Companion does not
/// own a tosu process and none appears to run.
pub fn auto_start_wanted(snapshot: &CompanionSnapshot) -> (r: bool)
    ensures
        r == (snapshot.tracking_enabled && snapshot.tosu.executable_available
            && !snapshot.tosu.process_owned && !tosu_appears_running(snapshot.tosu.connection)),
{
    snapshot.tracking_enabled && snapshot.tosu.executable_available
        && !snapshot.tosu.process_owned && !appears_running(snapshot.tosu.connection)
}

/// How many times tosu's port is probed before an automatic start.
pub const AUTO_START_PROBES: u32 = 4;

/// How long, in milliseconds, one probe of tosu's port may take.
pub const AUTO_START_PROBE_TIMEOUT_MS: u64 = 300;

/// How long, in milliseconds, to wait between two probes.
pub const AUTO_START_RETRY_MS: u64 = 400;

/// What follows one probe of tosu's port before an automatic start.
#[derive(Clone, Copy, Debug, PartialEq, Eq, Structural)]
pub enum AutoStartStep {
    /// Do not start tosu.
    GiveUp,
    /// Probe again after this many milliseconds.
    RetryAfter(u64),
    /// The probes are spent: start tosu if `auto_start_wanted` says so.
    Decide,
}

/// Whether probing for an automatic start goes on: Companion is not
/// shutting down and the automatic start is still enabled.
pub fn auto_start_continues(shutting_down: bool, enabled: bool) -> (r: bool)
    ensures
        r == (!shutting_down && enabled),
{
    !shutting_down && enabled
}

/// What follows the probe numbered `attempt` (from 0): a tosu that listens
/// needs no start; otherwise the port is probed again after a pause until
/// four probes are spent.
pub fn auto_start_after_probe(attempt: u32, reachable: bool) -> (r: AutoStartStep)
    ensures
        r == if reachable {
            AutoStartStep::GiveUp
        } else if attempt + 1 < AUTO_START_PROBES {
            AutoStartStep::RetryAfter(AUTO_START_RETRY_MS)
        } else {
            AutoStartStep::Decide
        },
{
    if reachable {
        AutoStartStep::GiveUp
    } else if attempt < AUTO_START_PROBES - 1 {
        AutoStartStep::RetryAfter(AUTO_START_RETRY_MS)
    } else {
        AutoStartStep::Decide
    }
}

/// Why launching tosu is refused, if it is: tracking is paused, or a tosu
/// that Companion does not own appears to run.
pub open spec fn launch_refusal_text(s: CompanionSnapshot) -> Option<Seq<char>> {
    if !s.tracking_enabled {
        Some(
            "Resume tracking before launching tosu so Companion can detect an existing process"@,
        )
    } else if tosu_appears_running(s.tosu.connection) && !s.tosu.process_owned {
        Some("tosu is already running outside Companion"@)
    } else {
        None
    }
}

/// With tracking on, launching tosu is refused, as already running outside
/// Companion, exactly when a tosu that Companion does not own is connected,
/// connecting or stale; while disabled, searching, unavailable or in error it
/// is allowed. An automatic start is never wanted while such a tosu runs.
pub proof fn lemma_an_outside_tosu_blocks_launching(s: CompanionSnapshot)
    requires
        s.tracking_enabled,
    ensures
        !s.tosu.process_owned && (s.tosu.connection == TosuConnection::Connected
            || s.tosu.connection == TosuConnection::Connecting || s.tosu.connection
            == TosuConnection::Stale) ==> launch_refusal_text(s) == Some(
            "tosu is already running outside Companion"@,
        ),
        (s.tosu.process_owned || s.tosu.connection == TosuConnection::Disabled
            || s.tosu.connection == TosuConnection::Searching || s.tosu.connection
            == TosuConnection::Unavailable || s.tosu.connection == TosuConnection::Error)
            ==> launch_refusal_text(s) is None,
        tosu_appears_running(TosuConnection::Connected),
        tosu_appears_running(TosuConnection::Connecting),
        tosu_appears_running(TosuConnection::Stale),
        !tosu_appears_running(TosuConnection::Disabled),
        !tosu_appears_running(TosuConnection::Searching),
        !tosu_appears_running(TosuConnection::Unavailable),
        !tosu_appears_running(TosuConnection::Error),
{
}

/// Refuses to launch tosu while tracking is paused, or while a tosu that
/// Companion does not own appears to run.
pub fn launch_allowed(snapshot: &CompanionSnapshot) -> (r: Result<(), String>)
    ensures
        match launch_refusal_text(*snapshot) {
            Some(m) => r matches Err(e) && e@ == m,
            None => r is Ok,
        },
{
    if !snapshot.tracking_enabled {
        return Err(
            text(
                "Resume tracking before launching tosu so Companion can detect an existing process",
            ),
        );
    }
    if appears_running(snapshot.tosu.connection) && !snapshot.tosu.process_owned {
        return Err(text("tosu is already running outside Companion"));
    }
    Ok(())
}

/// The message shown after tosu was launched.
pub open spec fn launched_text(tracking_enabled: bool) -> Seq<char> {
    if tracking_enabled {
        "tosu was launched; waiting for its v2 API"@
    } else {
        "tosu was launched; Companion tracking is paused"@
    }
}

/// Shows a tosu that Companion launched, with the memory access it has.
pub fn show_launched(snapshot: &mut CompanionSnapshot, memory_access: TosuMemoryAccess)
    ensures
        text_view(final(snapshot).tosu.message) == Some(
            launched_text(old(snapshot).tracking_enabled),
        ),
        *final(snapshot) == (CompanionSnapshot {
            tosu: crate::app_state::TosuStatus {
                process_owned: true,
                executable_available: true,
                memory_access,
                connection: waiting_connection(old(snapshot).tracking_enabled),
                message: final(snapshot).tosu.message,
                ..old(snapshot).tosu
            },
            ..*old(snapshot)
        }),
{
    snapshot.tosu.process_owned = true;
    snapshot.tosu.executable_available = true;
    snapshot.tosu.memory_access = memory_access;
    let tracking = snapshot.tracking_enabled;
    snapshot.tosu.connection = if tracking {
        TosuConnection::Searching
    } else {
        TosuConnection::Disabled
    };
    snapshot.tosu.message = Some(
        if tracking {
            text("tosu was launched; waiting for its v2 API")
        } else {
            text("tosu was launched; Companion tracking is paused")
        },
    );
}

/// The message shown when tosu could not be launched.
pub open spec fn launch_failure_text(error: ProcessError) -> Seq<char> {
    match error {
        ProcessError::NotInstalled => "tosu was not found at the selected path or on PATH"@,
        _ => process_error_text(error),
    }
}

/// The message shown when tosu could not be launched.
pub fn launch_failure_message(error: &ProcessError) -> (r: String)
    ensures
        r@ == launch_failure_text(*error),
{
    match error {
        ProcessError::NotInstalled => text("tosu was not found at the selected path or on PATH"),
        _ => error.message(),
    }
}

/// Shows that launching tosu failed, with `message`.
pub fn show_launch_failed(snapshot: &mut CompanionSnapshot, message: String)
    ensures
        *final(snapshot) == with_connection(*old(snapshot), TosuConnection::Error, Some(message)),
{
    snapshot.tosu.connection = TosuConnection::Error;
    snapshot.tosu.message = Some(message);
}

/// Shows that Companion stopped the tosu it owned: nothing of osu!, and the
/// connection searched for again (or disabled).
pub fn show_stopped(snapshot: &mut CompanionSnapshot)
    ensures
        text_view(final(snapshot).tosu.message) == Some("Companion-owned tosu was stopped"@),
        ({
            let shown = CompanionSnapshot {
                tosu: crate::app_state::TosuStatus {
                    process_owned: false,
                    connection: waiting_connection(old(snapshot).tracking_enabled),
                    message: final(snapshot).tosu.message,
                    ..old(snapshot).tosu
                },
                ..*old(snapshot)
            };
            *final(snapshot) == CompanionSnapshot {
                osu: OsuStatus { client: old(snapshot).osu.client, ..without_osu(shown).osu },
                ..without_osu(shown)
            }
        }),
{
    snapshot.tosu.process_owned = false;
    snapshot.tosu.connection = if snapshot.tracking_enabled {
        TosuConnection::Searching
    } else {
        TosuConnection::Disabled
    };
    snapshot.tosu.message = Some(text("Companion-owned tosu was stopped"));
    snapshot.osu.running = false;
    snapshot.osu.state = OsuState::Unknown;
    snapshot.now_playing = None;
    snapshot.live_play = None;
}

/// Whether a tosu that Companion does not own is connected.
pub fn externally_running(snapshot: &CompanionSnapshot) -> (r: bool)
    ensures
        r == (snapshot.tosu.connection == TosuConnection::Connected
            && !snapshot.tosu.process_owned),
{
    snapshot.tosu.connection == TosuConnection::Connected && !snapshot.tosu.process_owned
}

/// The message shown after memory access was granted.
pub open spec fn granted_text(restarted: bool, external: bool) -> Seq<char> {
    if restarted {
        "Memory access granted; Companion restarted tosu"@
    } else if external {
        "Memory access granted; restart the externally managed tosu process"@
    } else {
        "Memory access granted; tosu can now read osu!lazer state"@
    }
}

/// Shows that memory access was granted; `restarted` is whether Companion
/// restarted its own tosu, `external` whether another tosu was connected.
pub fn show_memory_access_granted(
    snapshot: &mut CompanionSnapshot,
    restarted: bool,
    external: bool,
)
    ensures
        text_view(final(snapshot).tosu.message) == Some(granted_text(restarted, external)),
        *final(snapshot) == (CompanionSnapshot {
            tosu: crate::app_state::TosuStatus {
                memory_access: TosuMemoryAccess::Available,
                process_owned: restarted,
                connection: waiting_connection(old(snapshot).tracking_enabled),
                message: final(snapshot).tosu.message,
                ..old(snapshot).tosu
            },
            ..*old(snapshot)
        }),
{
    snapshot.tosu.memory_access = TosuMemoryAccess::Available;
    snapshot.tosu.process_owned = restarted;
    snapshot.tosu.connection = if snapshot.tracking_enabled {
        TosuConnection::Searching
    } else {
        TosuConnection::Disabled
    };
    snapshot.tosu.message = Some(
        if restarted {
            text("Memory access granted; Companion restarted tosu")
        } else if external {
            text("Memory access granted; restart the externally managed tosu process")
        } else {
            text("Memory access granted; tosu can now read osu!lazer state")
        },
    );
}

/// The message shown when tosu could not be restarted after memory access
/// was granted.
pub open spec fn restart_failure_text(error: ProcessError) -> Seq<char> {
    "Memory access was granted, but tosu could not restart: "@ + process_error_text(error)
}

/// The message shown when tosu could not be restarted after memory access
/// was granted.
pub fn restart_failure_message(error: &ProcessError) -> (r: String)
    ensures
        r@ == restart_failure_text(*error),
{
    let v = concat_chars(
        &chars_of("Memory access was granted, but tosu could not restart: "),
        &chars_of(error.message().as_str()),
    );
    string_of(&v)
}

/// Shows that memory access was granted but tosu could not be restarted.
pub fn show_restart_failed(snapshot: &mut CompanionSnapshot, message: String)
    ensures
        *final(snapshot) == (CompanionSnapshot {
            tosu: crate::app_state::TosuStatus {
                memory_access: TosuMemoryAccess::Available,
                process_owned: false,
                message: Some(message),
                ..old(snapshot).tosu
            },
            ..*old(snapshot)
        }),
{
    snapshot.tosu.memory_access = TosuMemoryAccess::Available;
    snapshot.tosu.process_owned = false;
    snapshot.tosu.message = Some(message);
}

/// Shows that memory access could not be granted, with the access found
/// afterwards and `message`.
pub fn show_memory_access_refused(
    snapshot: &mut CompanionSnapshot,
    memory_access: TosuMemoryAccess,
    message: String,
)
    ensures
        *final(snapshot) == (CompanionSnapshot {
            tosu: crate::app_state::TosuStatus {
                memory_access,
                message: Some(message),
                ..old(snapshot).tosu
            },
            ..*old(snapshot)
        }),
{
    snapshot.tosu.memory_access = memory_access;
    snapshot.tosu.message = Some(message);
}

/// Shows the tosu executable that the user selected.
pub fn show_executable_selected(snapshot: &mut CompanionSnapshot, path: String)
    ensures
        text_view(final(snapshot).tosu.message) == Some(
            "The selected tosu executable will be used when launching"@,
        ),
        *final(snapshot) == (CompanionSnapshot {
            tosu: crate::app_state::TosuStatus {
                executable_available: true,
                executable_path: Some(path),
                executable_configured: true,
                message: final(snapshot).tosu.message,
                ..old(snapshot).tosu
            },
            ..*old(snapshot)
        }),
{
    snapshot.tosu.executable_available = true;
    snapshot.tosu.executable_path = Some(path);
    snapshot.tosu.executable_configured = true;
    snapshot.tosu.message = Some(text("The selected tosu executable will be used when launching"));
}

/// Shows that executable discovery went back to `PATH`, with the executable
/// found there (if any).
pub fn show_executable_reset(snapshot: &mut CompanionSnapshot, resolved: Option<String>)
    ensures
        text_view(final(snapshot).tosu.message) == Some(
            "tosu executable discovery was reset to PATH"@,
        ),
        *final(snapshot) == (CompanionSnapshot {
            tosu: crate::app_state::TosuStatus {
                executable_available: resolved is Some,
                executable_path: resolved,
                executable_configured: false,
                message: final(snapshot).tosu.message,
                ..old(snapshot).tosu
            },
            ..*old(snapshot)
        }),
{
    snapshot.tosu.executable_available = resolved.is_some();
    snapshot.tosu.executable_path = resolved;
    snapshot.tosu.executable_configured = false;
    snapshot.tosu.message = Some(text("tosu executable discovery was reset to PATH"));
}

/// Shows the sign-in state with Hanami and its message.
pub fn set_auth_state(snapshot: &mut CompanionSnapshot, state: AuthState, message: Option<String>)
    ensures
        *final(snapshot) == (CompanionSnapshot {
            auth: crate::app_state::AuthStatus { state, message, ..old(snapshot).auth },
            ..*old(snapshot)
        }),
{
    snapshot.auth.state = state;
    snapshot.auth.message = message;
}

} // verus!
