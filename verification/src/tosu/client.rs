//! Following the tosu v2 WebSocket: the health of a connection, the backoff
//! between connection attempts, the decisions taken on each socket event,
//! and what the user sees of it.
use vstd::prelude::*;

use crate::activity::model::RecentPlay;
use crate::activity::{forgot_attempt, observed, same_plays, ActivityTracker};
use crate::app_state::{CompanionSnapshot, NowPlaying, LivePlay, OsuState, OsuStatus, TosuConnection};
use crate::auth::client::text;
use crate::text::str_equal;
use crate::tosu::model::{normalizes, text_view, NormalizedTosu, PayloadError, RawTosuPayload};
use crate::tosu::process::{indicates_memory_access_failure, reports_memory_access_failure, TosuMemoryAccess};

verus! {

/// The shortest time, in milliseconds, between two user-interface updates
/// driven by tosu frames.
pub const UI_INTERVAL_MS: u64 = 125;

/// The first delay, in milliseconds, before connecting to tosu again.
pub const INITIAL_BACKOFF_MS: u64 = 500;

/// The longest delay, in milliseconds, between attempts to connect to tosu.
pub const MAX_BACKOFF_MS: u64 = 8_000;

/// How long, in milliseconds, the WebSocket may stay silent before the
/// connection is considered stale.
pub const MAX_ACTIVITY_SILENCE_MS: u64 = 15_000;

/// How long, in milliseconds, tosu may send no usable state before osu! is
/// shown as not running.
pub const MAX_VALID_STATE_SILENCE_MS: u64 = 10_000;

/// The shortest time, in milliseconds, between two logged payload errors.
pub const PARSE_LOG_INTERVAL_MS: u64 = 30_000;

/// How many unexpected payloads in a row end a connection.
pub const MAX_UNEXPECTED_PAYLOADS: u8 = 3;

/// Why the monitoring of one WebSocket connection ended.
#[derive(Clone, Copy, Debug, PartialEq, Eq, Structural)]
pub enum MonitorEnd {
    TrackingDisabled,
    Disconnected,
    Stale,
    Incompatible,
}

/// The time from `since` to `now`, or zero where `now` is earlier
/// (`Instant::duration_since`).
pub open spec fn elapsed(now: u64, since: u64) -> nat {
    if now >= since {
        (now - since) as nat
    } else {
        0
    }
}

fn elapsed_ms(now: u64, since: u64) -> (r: u64)
    ensures
        r == elapsed(now, since),
{
    if now >= since {
        now - since
    } else {
        0
    }
}

/// When a WebSocket connection opened, and when it last carried any
/// message and any usable tosu state (monotonic milliseconds).
#[derive(Clone, Copy, Debug, PartialEq, Eq, Structural)]
pub struct ConnectionHealth {
    pub opened_at_ms: u64,
    pub last_activity_ms: Option<u64>,
    pub last_valid_state_ms: Option<u64>,
}

/// The moment the transport was last known to be alive.
pub open spec fn activity_anchor(h: ConnectionHealth) -> u64 {
    match h.last_activity_ms {
        Some(t) => t,
        None => h.opened_at_ms,
    }
}

/// The moment tosu last sent usable state.
pub open spec fn valid_anchor(h: ConnectionHealth) -> u64 {
    match h.last_valid_state_ms {
        Some(t) => t,
        None => h.opened_at_ms,
    }
}

/// Whether the transport is stale at `now`.
pub open spec fn stale_at(h: ConnectionHealth, now: u64) -> bool {
    elapsed(now, activity_anchor(h)) >= MAX_ACTIVITY_SILENCE_MS
}

/// Whether tosu has sent no usable state for too long at `now`.
pub open spec fn state_timed_out_at(h: ConnectionHealth, now: u64) -> bool {
    elapsed(now, valid_anchor(h)) >= MAX_VALID_STATE_SILENCE_MS
}

/// The times of a connection's health are in order: usable state is also
/// activity, so the last activity is no earlier than the last usable state.
pub open spec fn health_ordered(h: ConnectionHealth) -> bool {
    h.opened_at_ms <= valid_anchor(h) <= activity_anchor(h)
}

impl ConnectionHealth {
    /// The health of a connection opened at `now_ms`.
    pub fn new(now_ms: u64) -> (r: Self)
        ensures
            r == (ConnectionHealth {
                opened_at_ms: now_ms,
                last_activity_ms: None,
                last_valid_state_ms: None,
            }),
    {
        ConnectionHealth { opened_at_ms: now_ms, last_activity_ms: None, last_valid_state_ms: None }
    }

    /// Records a message of any kind at `now_ms`.
    pub fn record_activity(&mut self, now_ms: u64)
        ensures
            *final(self) == (ConnectionHealth { last_activity_ms: Some(now_ms), ..*old(self) }),
    {
        self.last_activity_ms = Some(now_ms);
    }

    /// Records usable tosu state at `now_ms`, which is also activity.
    pub fn record_valid_state(&mut self, now_ms: u64)
        ensures
            *final(self) == (ConnectionHealth {
                last_activity_ms: Some(now_ms),
                last_valid_state_ms: Some(now_ms),
                ..*old(self)
            }),
    {
        self.last_activity_ms = Some(now_ms);
        self.last_valid_state_ms = Some(now_ms);
    }

    /// Whether the WebSocket has carried nothing for too long at `now_ms`.
    pub fn transport_is_stale(&self, now_ms: u64) -> (r: bool)
        ensures
            r == stale_at(*self, now_ms),
    {
        let anchor = match self.last_activity_ms {
            Some(t) => t,
            None => self.opened_at_ms,
        };
        elapsed_ms(now_ms, anchor) >= MAX_ACTIVITY_SILENCE_MS
    }

    /// Whether tosu has sent no usable state for too long at `now_ms`.
    pub fn valid_state_timed_out(&self, now_ms: u64) -> (r: bool)
        ensures
            r == state_timed_out_at(*self, now_ms),
    {
        let anchor = match self.last_valid_state_ms {
            Some(t) => t,
            None => self.opened_at_ms,
        };
        elapsed_ms(now_ms, anchor) >= MAX_VALID_STATE_SILENCE_MS
    }
}

/// Recording at a time no earlier than what was recorded keeps the health
/// in order.
pub proof fn lemma_recording_keeps_health_ordered(h: ConnectionHealth, now: u64)
    requires
        health_ordered(h),
        activity_anchor(h) <= now,
    ensures
        health_ordered(ConnectionHealth { last_activity_ms: Some(now), ..h }),
        health_ordered(
            ConnectionHealth { last_activity_ms: Some(now), last_valid_state_ms: Some(now), ..h },
        ),
{
}

/// A stale transport has also sent no usable state for too long, so the
/// stale check always decides first; the converse does not hold (an idle
/// tosu keeps the transport alive without usable state).
pub proof fn lemma_stale_transport_has_timed_out(h: ConnectionHealth, now: u64)
    requires
        health_ordered(h),
    ensures
        stale_at(h, now) ==> state_timed_out_at(h, now),
{
}

/// The delay after `delay` when connecting failed again: twice as long, but
/// never past the limit.
pub open spec fn grown_backoff(delay: u64) -> u64 {
    if delay >= MAX_BACKOFF_MS / 2 {
        MAX_BACKOFF_MS
    } else {
        (2 * delay) as u64
    }
}

/// The listener's clocks, in milliseconds: a connection is stale after
/// 15 000 ms without any message and osu! is shown as not running after
/// 10 000 ms without usable state, both measured from the connection's
/// opening until something arrives; the user interface is updated at most
/// every 125 ms and payload errors are logged at most every 30 000 ms; after
/// a failure the delay doubles, up to 8 000 ms.
pub proof fn lemma_listener_clocks(h: ConnectionHealth, now: u64, last: Option<u64>, delay: u64)
    ensures
        stale_at(h, now) <==> now >= (match h.last_activity_ms {
            Some(t) => t,
            None => h.opened_at_ms,
        }) + 15000,
        state_timed_out_at(h, now) <==> now >= (match h.last_valid_state_ms {
            Some(t) => t,
            None => h.opened_at_ms,
        }) + 10000,
        ui_due(last, now) <==> (last matches Some(t) ==> now >= t + 125),
        log_due(last, now) <==> (last matches Some(t) ==> now >= t + 30000),
        grown_backoff(delay) == (if 2 * delay <= 8000 {
            2 * delay
        } else {
            8000
        }),
{
}

/// The delay, in milliseconds, before the next attempt to connect to tosu.
#[derive(Clone, Copy, Debug, PartialEq, Eq, Structural)]
pub struct ListenerBackoff {
    pub delay_ms: u64,
}

/// The delay lies between the first delay and the limit.
pub open spec fn backoff_in_range(b: ListenerBackoff) -> bool {
    INITIAL_BACKOFF_MS <= b.delay_ms <= MAX_BACKOFF_MS
}

impl ListenerBackoff {
    /// The backoff before any failure.
    pub fn new() -> (r: Self)
        ensures
            r.delay_ms == INITIAL_BACKOFF_MS,
            backoff_in_range(r),
    {
        ListenerBackoff { delay_ms: INITIAL_BACKOFF_MS }
    }

    /// Starts over from the first delay.
    pub fn reset(&mut self)
        ensures
            final(self).delay_ms == INITIAL_BACKOFF_MS,
    {
        self.delay_ms = INITIAL_BACKOFF_MS;
    }

    /// Doubles the delay after another failure, up to the limit.
    pub fn grow(&mut self)
        ensures
            final(self).delay_ms == grown_backoff(old(self).delay_ms),
            backoff_in_range(*old(self)) ==> backoff_in_range(*final(self)),
    {
        self.delay_ms = if self.delay_ms >= MAX_BACKOFF_MS / 2 {
            MAX_BACKOFF_MS
        } else {
            2 * self.delay_ms
        };
    }

    /// Adjusts the delay after a monitored connection ended: a lost
    /// connection is retried soon, a stale or incompatible one ever more
    /// slowly, and turning tracking off changes nothing.
    pub fn after_monitor(&mut self, end: MonitorEnd)
        ensures
            final(self).delay_ms == match end {
                MonitorEnd::TrackingDisabled => old(self).delay_ms,
                MonitorEnd::Disconnected => INITIAL_BACKOFF_MS,
                _ => grown_backoff(old(self).delay_ms),
            },
            backoff_in_range(*old(self)) ==> backoff_in_range(*final(self)),
    {
        match end {
            MonitorEnd::TrackingDisabled => {},
            MonitorEnd::Disconnected => self.reset(),
            _ => self.grow(),
        }
    }
}

/// What the tosu listener observed.
#[derive(Clone, Copy, Debug, PartialEq, Eq, Structural)]
pub enum ListenerEvent {
    /// Tracking is off.
    TrackingOff,
    /// Nothing accepts connections on tosu's port.
    PortClosed,
    /// The port is open but the WebSocket could not be opened (or opening it
    /// timed out).
    SocketFailed { timed_out: bool },
    /// Monitoring of an open WebSocket ended.
    MonitorEnded(MonitorEnd),
    /// A backoff wait ended, early where tracking was switched.
    WaitEnded { tracking_changed: bool },
}

/// What the listener shows after an event.
#[derive(Clone, Copy, Debug, PartialEq, Eq, Structural)]
pub enum ListenerUpdate {
    Nothing,
    /// `set_inactive` with the disabled connection and no message.
    ShowDisabled,
    /// `set_unavailable` with what is known of the executable.
    ShowUnavailable,
    /// `set_socket_failure`.
    ShowSocketFailure { timed_out: bool },
    /// `mark_disconnected`.
    ShowDisconnected,
}

/// How the listener waits after an event.
#[derive(Clone, Copy, Debug, PartialEq, Eq, Structural)]
pub enum ListenerWait {
    /// Start over at once.
    Reconnect,
    /// Wait for tracking to be switched, refreshing the process state each
    /// second meanwhile, then start over.
    UntilTrackingChanges,
    /// Wait the backoff delay or until tracking is switched, then report
    /// `WaitEnded`.
    Backoff,
    /// As `Backoff`, but start over at once where tracking is off.
    BackoffWhileTracking,
}

/// The listener's response to an event.
#[derive(Clone, Copy, Debug, PartialEq, Eq, Structural)]
pub struct ListenerAction {
    /// Forget the attempt in progress.
    pub reset_activity: bool,
    pub update: ListenerUpdate,
    pub wait: ListenerWait,
}

/// The listener's response to `event`, and the backoff after it.
pub open spec fn listener_response(backoff: ListenerBackoff, event: ListenerEvent) -> (
    ListenerBackoff,
    ListenerAction,
) {
    match event {
        ListenerEvent::TrackingOff => (
            ListenerBackoff { delay_ms: INITIAL_BACKOFF_MS },
            ListenerAction {
                reset_activity: true,
                update: ListenerUpdate::ShowDisabled,
                wait: ListenerWait::UntilTrackingChanges,
            },
        ),
        ListenerEvent::PortClosed => (
            backoff,
            ListenerAction {
                reset_activity: true,
                update: ListenerUpdate::ShowUnavailable,
                wait: ListenerWait::Backoff,
            },
        ),
        ListenerEvent::SocketFailed { timed_out } => (
            backoff,
            ListenerAction {
                reset_activity: true,
                update: ListenerUpdate::ShowSocketFailure { timed_out },
                wait: ListenerWait::BackoffWhileTracking,
            },
        ),
        ListenerEvent::MonitorEnded(end) => match end {
            MonitorEnd::TrackingDisabled => (
                backoff,
                ListenerAction {
                    reset_activity: true,
                    update: ListenerUpdate::Nothing,
                    wait: ListenerWait::Reconnect,
                },
            ),
            MonitorEnd::Disconnected => (
                ListenerBackoff { delay_ms: INITIAL_BACKOFF_MS },
                ListenerAction {
                    reset_activity: true,
                    update: ListenerUpdate::ShowDisconnected,
                    wait: ListenerWait::BackoffWhileTracking,
                },
            ),
            _ => (
                ListenerBackoff { delay_ms: grown_backoff(backoff.delay_ms) },
                ListenerAction {
                    reset_activity: true,
                    update: ListenerUpdate::Nothing,
                    wait: ListenerWait::BackoffWhileTracking,
                },
            ),
        },
        ListenerEvent::WaitEnded { tracking_changed } => (
            if tracking_changed {
                backoff
            } else {
                ListenerBackoff { delay_ms: grown_backoff(backoff.delay_ms) }
            },
            ListenerAction {
                reset_activity: false,
                update: ListenerUpdate::Nothing,
                wait: ListenerWait::Reconnect,
            },
        ),
    }
}

/// The listener's decision after `event`: what to show, whether to forget
/// the attempt in progress, how to wait, and how the backoff changes. Tracking
/// off resets the backoff; a closed port, a failed socket or a stale or
/// incompatible connection waits it out; a lost connection retries soon; a
/// wait that ran out grows it.
pub fn listener_step(backoff: &mut ListenerBackoff, event: ListenerEvent) -> (r: ListenerAction)
    ensures
        (*final(backoff), r) == listener_response(*old(backoff), event),
        backoff_in_range(*old(backoff)) ==> backoff_in_range(*final(backoff)),
{
    match event {
        ListenerEvent::TrackingOff => {
            backoff.reset();
            ListenerAction {
                reset_activity: true,
                update: ListenerUpdate::ShowDisabled,
                wait: ListenerWait::UntilTrackingChanges,
            }
        },
        ListenerEvent::PortClosed => ListenerAction {
            reset_activity: true,
            update: ListenerUpdate::ShowUnavailable,
            wait: ListenerWait::Backoff,
        },
        ListenerEvent::SocketFailed { timed_out } => ListenerAction {
            reset_activity: true,
            update: ListenerUpdate::ShowSocketFailure { timed_out },
            wait: ListenerWait::BackoffWhileTracking,
        },
        ListenerEvent::MonitorEnded(end) => {
            backoff.after_monitor(end);
            match end {
                MonitorEnd::TrackingDisabled => ListenerAction {
                    reset_activity: true,
                    update: ListenerUpdate::Nothing,
                    wait: ListenerWait::Reconnect,
                },
                MonitorEnd::Disconnected => ListenerAction {
                    reset_activity: true,
                    update: ListenerUpdate::ShowDisconnected,
                    wait: ListenerWait::BackoffWhileTracking,
                },
                _ => ListenerAction {
                    reset_activity: true,
                    update: ListenerUpdate::Nothing,
                    wait: ListenerWait::BackoffWhileTracking,
                },
            }
        },
        ListenerEvent::WaitEnded { tracking_changed } => {
            if !tracking_changed {
                backoff.grow();
            }
            ListenerAction {
                reset_activity: false,
                update: ListenerUpdate::Nothing,
                wait: ListenerWait::Reconnect,
            }
        },
    }
}

/// The connection backoff stays between its first delay and its limit:
/// growing a delay in that range keeps it there, and reaches the limit after
/// at most four steps from the first delay.
pub proof fn lemma_listener_backoff_is_bounded(delay: u64)
    requires
        INITIAL_BACKOFF_MS <= delay <= MAX_BACKOFF_MS,
    ensures
        INITIAL_BACKOFF_MS <= grown_backoff(delay) <= MAX_BACKOFF_MS,
        delay <= grown_backoff(delay),
        grown_backoff(grown_backoff(grown_backoff(grown_backoff(INITIAL_BACKOFF_MS))))
            == MAX_BACKOFF_MS,
{
}

/// The snapshot with nothing of osu! shown: not running, unknown screen, no
/// client, no beatmap and no live play.
pub open spec fn without_osu(s: CompanionSnapshot) -> CompanionSnapshot {
    CompanionSnapshot {
        osu: OsuStatus { running: false, state: OsuState::Unknown, client: None },
        now_playing: None,
        live_play: None,
        ..s
    }
}

/// Shows nothing of osu!.
pub fn clear_displayed_osu_state(snapshot: &mut CompanionSnapshot)
    ensures
        *final(snapshot) == without_osu(*old(snapshot)),
{
    snapshot.osu = OsuStatus { running: false, state: OsuState::Unknown, client: None };
    snapshot.now_playing = None;
    snapshot.live_play = None;
}

/// The snapshot with the tosu connection and its message replaced.
pub open spec fn with_connection(
    s: CompanionSnapshot,
    connection: TosuConnection,
    message: Option<String>,
) -> CompanionSnapshot {
    CompanionSnapshot { tosu: crate::app_state::TosuStatus { connection, message, ..s.tosu }, ..s }
}

/// Shows the connection as inactive with `message`, and nothing of osu!.
pub fn set_inactive(
    snapshot: &mut CompanionSnapshot,
    connection: TosuConnection,
    message: Option<String>,
)
    ensures
        *final(snapshot) == without_osu(with_connection(*old(snapshot), connection, message)),
{
    snapshot.tosu.connection = connection;
    snapshot.tosu.message = message;
    clear_displayed_osu_state(snapshot);
}

/// Whether two optional texts hold the same characters.
pub fn same_text(a: &Option<String>, b: &Option<String>) -> (r: bool)
    ensures
        r == (text_view(*a) == text_view(*b)),
{
    match (a, b) {
        (Some(x), Some(y)) => str_equal(x.as_str(), y.as_str()),
        (None, None) => true,
        _ => false,
    }
}

/// Shows the connection state `connection` with `message` while tracking;
/// returns whether anything changed (nothing does when both are shown
/// already).
pub fn set_connection(
    snapshot: &mut CompanionSnapshot,
    connection: TosuConnection,
    message: Option<String>,
) -> (changed: bool)
    ensures
        changed == !(old(snapshot).tosu.connection == connection && text_view(
            old(snapshot).tosu.message,
        ) == text_view(message)),
        !changed ==> *final(snapshot) == *old(snapshot),
        changed ==> *final(snapshot) == (CompanionSnapshot {
            tracking_enabled: true,
            ..with_connection(*old(snapshot), connection, message)
        }),
{
    if snapshot.tosu.connection == connection && same_text(&snapshot.tosu.message, &message) {
        return false;
    }
    snapshot.tracking_enabled = true;
    snapshot.tosu.connection = connection;
    snapshot.tosu.message = message;
    true
}

/// Whether the snapshot already shows a connected tosu without osu!.
pub open spec fn shows_connected_without_osu(s: CompanionSnapshot) -> bool {
    s.tosu.connection == TosuConnection::Connected && !s.osu.running && s.now_playing is None
        && s.live_play is None
}

/// Shows tosu as connected but osu! as not running; returns whether
/// anything changed.
pub fn set_connected_without_osu(snapshot: &mut CompanionSnapshot) -> (changed: bool)
    ensures
        changed == !shows_connected_without_osu(*old(snapshot)),
        !changed ==> *final(snapshot) == *old(snapshot),
        changed ==> *final(snapshot) == without_osu(
            with_connection(*old(snapshot), TosuConnection::Connected, None),
        ),
{
    if snapshot.tosu.connection == TosuConnection::Connected && !snapshot.osu.running
        && snapshot.now_playing.is_none() && snapshot.live_play.is_none() {
        return false;
    }
    snapshot.tosu.connection = TosuConnection::Connected;
    snapshot.tosu.message = None;
    clear_displayed_osu_state(snapshot);
    true
}

/// The message shown while tosu is not running.
pub open spec fn unavailable_text(executable_found: bool) -> Seq<char> {
    if executable_found {
        "tosu is not running"@
    } else {
        "tosu is not running and no executable has been selected or found on PATH"@
    }
}

/// Shows tosu as not running, with the executable that was found (if any)
/// and the memory access tosu would have.
pub fn set_unavailable(
    snapshot: &mut CompanionSnapshot,
    executable: Option<String>,
    memory_access: TosuMemoryAccess,
)
    ensures
        final(snapshot).tosu.connection == TosuConnection::Unavailable,
        final(snapshot).tosu.executable_available == executable is Some,
        final(snapshot).tosu.executable_path == executable,
        final(snapshot).tosu.memory_access == memory_access,
        text_view(final(snapshot).tosu.message) == Some(unavailable_text(executable is Some)),
        *final(snapshot) == without_osu(
            CompanionSnapshot {
                tosu: crate::app_state::TosuStatus {
                    connection: TosuConnection::Unavailable,
                    executable_available: executable is Some,
                    executable_path: executable,
                    memory_access,
                    message: final(snapshot).tosu.message,
                    ..old(snapshot).tosu
                },
                ..*old(snapshot)
            },
        ),
{
    let found = executable.is_some();
    snapshot.tosu.connection = TosuConnection::Unavailable;
    snapshot.tosu.executable_available = found;
    snapshot.tosu.executable_path = executable;
    snapshot.tosu.memory_access = memory_access;
    snapshot.tosu.message = Some(
        if found {
            text("tosu is not running")
        } else {
            text("tosu is not running and no executable has been selected or found on PATH")
        },
    );
    clear_displayed_osu_state(snapshot);
}

/// Shows that the connection to tosu was interrupted and is being retried.
pub fn mark_disconnected(snapshot: &mut CompanionSnapshot)
    ensures
        final(snapshot).tosu.connection == TosuConnection::Searching,
        text_view(final(snapshot).tosu.message) == Some(
            "the tosu connection was interrupted; retrying"@,
        ),
        *final(snapshot) == without_osu(
            with_connection(*old(snapshot), TosuConnection::Searching, final(snapshot).tosu.message),
        ),
{
    set_inactive(
        snapshot,
        TosuConnection::Searching,
        Some(text("the tosu connection was interrupted; retrying")),
    );
}

/// The message shown when the WebSocket could not be opened: it timed out,
/// or tosu accepted the connection without serving its v2 WebSocket.
pub open spec fn socket_failure_text(timed_out: bool) -> Seq<char> {
    if timed_out {
        "the tosu v2 WebSocket connection timed out"@
    } else {
        "tosu accepted a connection but its v2 WebSocket was unavailable"@
    }
}

/// Shows that the WebSocket could not be opened.
pub fn set_socket_failure(snapshot: &mut CompanionSnapshot, timed_out: bool)
    ensures
        text_view(final(snapshot).tosu.message) == Some(socket_failure_text(timed_out)),
        *final(snapshot) == without_osu(
            with_connection(*old(snapshot), TosuConnection::Error, final(snapshot).tosu.message),
        ),
{
    let message = if timed_out {
        text("the tosu v2 WebSocket connection timed out")
    } else {
        text("tosu accepted a connection but its v2 WebSocket was unavailable")
    };
    set_inactive(snapshot, TosuConnection::Error, Some(message));
}

/// The message shown when tosu reported a memory-access problem.
pub open spec fn memory_problem_text() -> Seq<char> {
    "tosu reported a Linux memory-access problem while reading osu!"@
}

/// Marks memory access as possibly required after tosu reported a problem
/// reading osu!'s memory, unless access is known to be available; returns
/// whether the snapshot should be published again (it is, unless access is
/// already shown as possibly required).
pub fn mark_memory_access_possibly_required(snapshot: &mut CompanionSnapshot) -> (publish: bool)
    ensures
        publish == (old(snapshot).tosu.memory_access != TosuMemoryAccess::PossiblyRequired),
        (publish && old(snapshot).tosu.memory_access != TosuMemoryAccess::Available) ==> {
            &&& final(snapshot).tosu.memory_access == TosuMemoryAccess::PossiblyRequired
            &&& text_view(final(snapshot).tosu.message) == Some(memory_problem_text())
            &&& *final(snapshot) == (CompanionSnapshot {
                tosu: crate::app_state::TosuStatus {
                    memory_access: TosuMemoryAccess::PossiblyRequired,
                    message: final(snapshot).tosu.message,
                    ..old(snapshot).tosu
                },
                ..*old(snapshot)
            })
        },
        !(publish && old(snapshot).tosu.memory_access != TosuMemoryAccess::Available)
            ==> *final(snapshot) == *old(snapshot),
{
    if snapshot.tosu.memory_access == TosuMemoryAccess::PossiblyRequired {
        return false;
    }
    if snapshot.tosu.memory_access != TosuMemoryAccess::Available {
        snapshot.tosu.memory_access = TosuMemoryAccess::PossiblyRequired;
        snapshot.tosu.message = Some(
            text("tosu reported a Linux memory-access problem while reading osu!"),
        );
    }
    true
}

/// Shows what is known of the tosu process: whether Companion owns it, the
/// executable found, whether one was chosen, and memory access; returns
/// whether anything changed.
pub fn refresh_process_state(
    snapshot: &mut CompanionSnapshot,
    owned: bool,
    executable: Option<String>,
    configured: bool,
    memory_access: TosuMemoryAccess,
) -> (changed: bool)
    ensures
        changed == !(old(snapshot).tosu.process_owned == owned
            && old(snapshot).tosu.executable_available == executable is Some && text_view(
            old(snapshot).tosu.executable_path,
        ) == text_view(executable) && old(snapshot).tosu.executable_configured == configured
            && old(snapshot).tosu.memory_access == memory_access),
        !changed ==> *final(snapshot) == *old(snapshot),
        changed ==> *final(snapshot) == (CompanionSnapshot {
            tosu: crate::app_state::TosuStatus {
                process_owned: owned,
                executable_available: executable is Some,
                executable_path: executable,
                executable_configured: configured,
                memory_access,
                ..old(snapshot).tosu
            },
            ..*old(snapshot)
        }),
{
    let found = executable.is_some();
    if snapshot.tosu.process_owned == owned && snapshot.tosu.executable_available == found
        && same_text(&snapshot.tosu.executable_path, &executable)
        && snapshot.tosu.executable_configured == configured && snapshot.tosu.memory_access
        == memory_access {
        return false;
    }
    snapshot.tosu.process_owned = owned;
    snapshot.tosu.executable_available = found;
    snapshot.tosu.executable_path = executable;
    snapshot.tosu.executable_configured = configured;
    snapshot.tosu.memory_access = memory_access;
    true
}

/// The snapshot showing one frame of tosu.
pub open spec fn with_frame(
    s: CompanionSnapshot,
    osu: OsuStatus,
    now_playing: Option<NowPlaying>,
    live_play: Option<LivePlay>,
    recent: Vec<RecentPlay>,
) -> CompanionSnapshot {
    CompanionSnapshot {
        tosu: crate::app_state::TosuStatus {
            connection: TosuConnection::Connected,
            message: None,
            ..s.tosu
        },
        osu,
        now_playing,
        live_play,
        recent_activity: recent,
        ..s
    }
}

/// What the listener does after a socket event.
#[derive(Clone, Copy, Debug, PartialEq, Eq, Structural)]
pub struct MonitorStep {
    /// Send a close frame to tosu.
    pub close: bool,
    /// Publish the snapshot to the user interface.
    pub publish: bool,
    /// Log that tosu sent an unusable payload.
    pub log_payload_error: bool,
    /// Stop monitoring this connection, for this reason.
    pub end: Option<MonitorEnd>,
}

/// The step that does nothing.
pub open spec fn quiet() -> MonitorStep {
    MonitorStep { close: false, publish: false, log_payload_error: false, end: None }
}

/// A message received on the tosu WebSocket.
#[derive(Debug)]
pub enum SocketMessage {
    /// A text frame: the payload decoded from its JSON, or why it could not be.
    Text(Result<RawTosuPayload, String>),
    /// A ping, pong, binary or other frame that carries no state.
    Activity,
    /// The connection closed or failed.
    Closed,
}

/// Whether a user-interface update is due at `now` after the last one.
pub open spec fn ui_due(last: Option<u64>, now: u64) -> bool {
    match last {
        None => true,
        Some(t) => elapsed(now, t) >= UI_INTERVAL_MS,
    }
}

/// Whether logging a payload error is due at `now` after the last one.
pub open spec fn log_due(last: Option<u64>, now: u64) -> bool {
    match last {
        None => true,
        Some(t) => elapsed(now, t) >= PARSE_LOG_INTERVAL_MS,
    }
}

fn due(last: &Option<u64>, now: u64, interval: u64) -> (r: bool)
    ensures
        r == match *last {
            None => true,
            Some(t) => elapsed(now, t) >= interval,
        },
{
    match last {
        None => true,
        Some(t) => elapsed_ms(now, *t) >= interval,
    }
}

/// The message shown when the tosu connection went stale.
pub open spec fn stale_text() -> Seq<char> {
    "the tosu connection stopped responding; reconnecting"@
}

/// The message shown when tosu kept sending unexpected payloads.
pub open spec fn incompatible_text() -> Seq<char> {
    "tosu repeatedly returned an unexpected v2 payload"@
}

/// The count of unexpected payloads after one more.
pub open spec fn one_more(count: u8) -> u8 {
    if count == 255 {
        255u8
    } else {
        (count + 1) as u8
    }
}

/// The snapshot shown while tosu is connected but osu! is not running.
pub open spec fn idle_shown(s: CompanionSnapshot) -> CompanionSnapshot {
    if shows_connected_without_osu(s) {
        s
    } else {
        without_osu(with_connection(s, TosuConnection::Connected, None))
    }
}

/// The state of monitoring one tosu WebSocket connection.
#[derive(Clone, Copy, Debug, PartialEq, Eq, Structural)]
pub struct SocketMonitor {
    pub health: ConnectionHealth,
    /// Unexpected payloads received in a row.
    pub consecutive_unexpected: u8,
    /// Whether osu! is already shown as not running for want of state.
    pub idle_state_applied: bool,
    pub last_ui_emit_ms: Option<u64>,
    pub last_payload_log_ms: Option<u64>,
    /// Whether this is Linux, where tosu may lack memory access.
    pub linux: bool,
}

/// Whether `after`, `shown` and `step` follow from one more unexpected
/// payload at `now`: the count grows, a payload error is logged at most
/// every half minute, and the third in a row closes the connection and
/// shows it as incompatible.
pub open spec fn after_unexpected(
    before: SocketMonitor,
    snapshot: CompanionSnapshot,
    now: u64,
    after: SocketMonitor,
    shown: CompanionSnapshot,
    step: MonitorStep,
) -> bool {
    let count = one_more(before.consecutive_unexpected);
    let log = log_due(before.last_payload_log_ms, now);
    &&& after == (SocketMonitor {
        consecutive_unexpected: count,
        last_payload_log_ms: if log {
            Some(now)
        } else {
            before.last_payload_log_ms
        },
        ..before
    })
    &&& if count >= MAX_UNEXPECTED_PAYLOADS {
        &&& step == (MonitorStep {
            close: true,
            publish: true,
            log_payload_error: log,
            end: Some(MonitorEnd::Incompatible),
        })
        &&& text_view(shown.tosu.message) == Some(incompatible_text())
        &&& shown == without_osu(
            with_connection(snapshot, TosuConnection::Error, shown.tosu.message),
        )
    } else {
        &&& step == (MonitorStep { log_payload_error: log, ..quiet() })
        &&& shown == snapshot
    }
}

impl SocketMonitor {
    /// The monitoring of a connection opened at `now_ms`.
    pub fn new(now_ms: u64, linux: bool) -> (r: Self)
        ensures
            r == (SocketMonitor {
                health: ConnectionHealth {
                    opened_at_ms: now_ms,
                    last_activity_ms: None,
                    last_valid_state_ms: None,
                },
                consecutive_unexpected: 0,
                idle_state_applied: false,
                last_ui_emit_ms: None,
                last_payload_log_ms: None,
                linux,
            }),
    {
        SocketMonitor {
            health: ConnectionHealth::new(now_ms),
            consecutive_unexpected: 0,
            idle_state_applied: false,
            last_ui_emit_ms: None,
            last_payload_log_ms: None,
            linux,
        }
    }

    /// Tracking was switched (or its switch went away): monitoring ends,
    /// closing the connection, unless tracking is still on.
    pub fn on_tracking_change(&self, still_enabled: bool) -> (r: MonitorStep)
        ensures
            r == if still_enabled {
                quiet()
            } else {
                MonitorStep { close: true, end: Some(MonitorEnd::TrackingDisabled), ..quiet() }
            },
    {
        if still_enabled {
            MonitorStep { close: false, publish: false, log_payload_error: false, end: None }
        } else {
            MonitorStep {
                close: true,
                publish: false,
                log_payload_error: false,
                end: Some(MonitorEnd::TrackingDisabled),
            }
        }
    }

    /// A heartbeat ping was sent (or not): a ping that cannot be sent means
    /// the connection is gone.
    pub fn on_heartbeat(&self, ping_sent: bool) -> (r: MonitorStep)
        ensures
            r == if ping_sent {
                quiet()
            } else {
                MonitorStep { end: Some(MonitorEnd::Disconnected), ..quiet() }
            },
    {
        if ping_sent {
            MonitorStep { close: false, publish: false, log_payload_error: false, end: None }
        } else {
            MonitorStep {
                close: false,
                publish: false,
                log_payload_error: false,
                end: Some(MonitorEnd::Disconnected),
            }
        }
    }

    /// The watchdog ticked at `now_ms`: a stale connection is closed and
    /// shown as stale; a connection without usable state for too long shows
    /// osu! as not running, once.
    pub fn on_watchdog(
        &mut self,
        now_ms: u64,
        snapshot: &mut CompanionSnapshot,
        activity: &mut ActivityTracker,
    ) -> (r: MonitorStep)
        ensures
            stale_at(old(self).health, now_ms) ==> {
                &&& r == (MonitorStep {
                    close: true,
                    publish: true,
                    end: Some(MonitorEnd::Stale),
                    ..quiet()
                })
                &&& *final(self) == *old(self)
                &&& *final(activity) == *old(activity)
                &&& text_view(final(snapshot).tosu.message) == Some(stale_text())
                &&& *final(snapshot) == without_osu(
                    with_connection(
                        *old(snapshot),
                        TosuConnection::Stale,
                        final(snapshot).tosu.message,
                    ),
                )
            },
            !stale_at(old(self).health, now_ms) && !old(self).idle_state_applied
                && state_timed_out_at(old(self).health, now_ms) ==> {
                &&& r == (MonitorStep {
                    publish: !shows_connected_without_osu(*old(snapshot)),
                    ..quiet()
                })
                &&& *final(self) == (SocketMonitor { idle_state_applied: true, ..*old(self) })
                &&& forgot_attempt(*old(activity), *final(activity))
                &&& *final(snapshot) == if shows_connected_without_osu(*old(snapshot)) {
                    *old(snapshot)
                } else {
                    without_osu(with_connection(*old(snapshot), TosuConnection::Connected, None))
                }
            },
            !stale_at(old(self).health, now_ms) && (old(self).idle_state_applied
                || !state_timed_out_at(old(self).health, now_ms)) ==> {
                &&& r == quiet()
                &&& *final(self) == *old(self)
                &&& *final(activity) == *old(activity)
                &&& *final(snapshot) == *old(snapshot)
            },
    {
        if self.health.transport_is_stale(now_ms) {
            set_inactive(
                snapshot,
                TosuConnection::Stale,
                Some(text("the tosu connection stopped responding; reconnecting")),
            );
            return MonitorStep {
                close: true,
                publish: true,
                log_payload_error: false,
                end: Some(MonitorEnd::Stale),
            };
        }
        if !self.idle_state_applied && self.health.valid_state_timed_out(now_ms) {
            activity.reset();
            let changed = set_connected_without_osu(snapshot);
            self.idle_state_applied = true;
            return MonitorStep { close: false, publish: changed, log_payload_error: false, end: None };
        }
        MonitorStep { close: false, publish: false, log_payload_error: false, end: None }
    }

    /// Counts one more unexpected payload at `now_ms`; the third in a row
    /// closes the connection as incompatible.
    fn on_unexpected(&mut self, now_ms: u64, snapshot: &mut CompanionSnapshot) -> (r: MonitorStep)
        ensures
            after_unexpected(*old(self), *old(snapshot), now_ms, *final(self), *final(snapshot), r),
    {
        self.consecutive_unexpected = if self.consecutive_unexpected == 255 {
            255
        } else {
            self.consecutive_unexpected + 1
        };
        let log = due(&self.last_payload_log_ms, now_ms, PARSE_LOG_INTERVAL_MS);
        if log {
            self.last_payload_log_ms = Some(now_ms);
        }
        if self.consecutive_unexpected >= MAX_UNEXPECTED_PAYLOADS {
            set_inactive(
                snapshot,
                TosuConnection::Error,
                Some(text("tosu repeatedly returned an unexpected v2 payload")),
            );
            return MonitorStep {
                close: true,
                publish: true,
                log_payload_error: log,
                end: Some(MonitorEnd::Incompatible),
            };
        }
        MonitorStep { close: false, publish: false, log_payload_error: log, end: None }
    }

    /// Takes a message received at `now_ms`. Any message is activity; the
    /// end of the connection ends monitoring. Usable tosu state is shown and
    /// fed to the activity tracker; a "not ready" report shows osu! as not
    /// running (and, on Linux, a memory-access problem it reveals); any other
    /// payload counts as unexpected.
    pub fn on_message(
        &mut self,
        now_ms: u64,
        message: SocketMessage,
        snapshot: &mut CompanionSnapshot,
        activity: &mut ActivityTracker,
    ) -> (r: MonitorStep)
        ensures
            match message {
                SocketMessage::Closed => {
                    &&& r == (MonitorStep { end: Some(MonitorEnd::Disconnected), ..quiet() })
                    &&& *final(self) == *old(self)
                    &&& *final(snapshot) == *old(snapshot)
                    &&& *final(activity) == *old(activity)
                },
                SocketMessage::Activity => {
                    &&& r == quiet()
                    &&& *final(self) == (SocketMonitor {
                        health: ConnectionHealth {
                            last_activity_ms: Some(now_ms),
                            ..old(self).health
                        },
                        ..*old(self)
                    })
                    &&& *final(snapshot) == *old(snapshot)
                    &&& *final(activity) == *old(activity)
                },
                SocketMessage::Text(Err(_)) => {
                    &&& after_unexpected(
                        SocketMonitor {
                            health: ConnectionHealth {
                                last_activity_ms: Some(now_ms),
                                ..old(self).health
                            },
                            ..*old(self)
                        },
                        *old(snapshot),
                        now_ms,
                        *final(self),
                        *final(snapshot),
                        r,
                    )
                    &&& *final(activity) == *old(activity)
                },
                SocketMessage::Text(Ok(raw)) => match crate::tosu::model::payload_verdict(raw) {
                    Ok(()) => {
                        &&& final(self).health == (ConnectionHealth {
                            last_activity_ms: Some(now_ms),
                            last_valid_state_ms: Some(now_ms),
                            ..old(self).health
                        })
                        &&& final(self).consecutive_unexpected == 0
                        &&& !final(self).idle_state_applied
                        &&& r == (MonitorStep {
                            publish: ui_due(old(self).last_ui_emit_ms, now_ms),
                            ..quiet()
                        })
                        &&& final(self).last_ui_emit_ms == if ui_due(
                            old(self).last_ui_emit_ms,
                            now_ms,
                        ) {
                            Some(now_ms)
                        } else {
                            old(self).last_ui_emit_ms
                        }
                        &&& exists|n: NormalizedTosu|
                            {
                                &&& #[trigger] normalizes(n, raw)
                                &&& observed(*old(activity), n.observation, *final(activity))
                                &&& *final(snapshot) == with_frame(
                                    *old(snapshot),
                                    n.osu,
                                    n.now_playing,
                                    n.live_play,
                                    final(snapshot).recent_activity,
                                )
                            }
                        &&& same_plays(
                            final(snapshot).recent_activity@,
                            final(activity).plays(),
                        )
                    },
                    Err(PayloadError::NotReady) => {
                        let reveals = old(self).linux && reports_memory_access_failure(
                            match raw.error {
                                Some(e) => e@,
                                None => seq![],
                            },
                        );
                        let idle = idle_shown(*old(snapshot));
                        let marks = reveals && old(snapshot).tosu.memory_access
                            != TosuMemoryAccess::PossiblyRequired;
                        let on_time = ui_due(old(self).last_ui_emit_ms, now_ms);
                        &&& *final(self) == (SocketMonitor {
                            health: ConnectionHealth {
                                last_activity_ms: Some(now_ms),
                                last_valid_state_ms: Some(now_ms),
                                ..old(self).health
                            },
                            consecutive_unexpected: 0,
                            idle_state_applied: true,
                            last_ui_emit_ms: if on_time {
                                Some(now_ms)
                            } else {
                                old(self).last_ui_emit_ms
                            },
                            ..*old(self)
                        })
                        &&& forgot_attempt(*old(activity), *final(activity))
                        &&& r == (MonitorStep {
                            publish: !shows_connected_without_osu(*old(snapshot)) || marks
                                || on_time,
                            ..quiet()
                        })
                        &&& if marks && old(snapshot).tosu.memory_access
                            != TosuMemoryAccess::Available {
                            &&& text_view(final(snapshot).tosu.message) == Some(
                                memory_problem_text(),
                            )
                            &&& *final(snapshot) == (CompanionSnapshot {
                                tosu: crate::app_state::TosuStatus {
                                    memory_access: TosuMemoryAccess::PossiblyRequired,
                                    message: final(snapshot).tosu.message,
                                    ..idle.tosu
                                },
                                ..idle
                            })
                        } else {
                            *final(snapshot) == idle
                        }
                    },
                    Err(_) => {
                        &&& after_unexpected(
                            SocketMonitor {
                                health: ConnectionHealth {
                                    last_activity_ms: Some(now_ms),
                                    ..old(self).health
                                },
                                ..*old(self)
                            },
                            *old(snapshot),
                            now_ms,
                            *final(self),
                            *final(snapshot),
                            r,
                        )
                        &&& *final(activity) == *old(activity)
                    },
                },
            },
    {
        match message {
            SocketMessage::Closed => MonitorStep {
                close: false,
                publish: false,
                log_payload_error: false,
                end: Some(MonitorEnd::Disconnected),
            },
            SocketMessage::Activity => {
                self.health.record_activity(now_ms);
                MonitorStep { close: false, publish: false, log_payload_error: false, end: None }
            },
            SocketMessage::Text(Err(_)) => {
                self.health.record_activity(now_ms);
                self.on_unexpected(now_ms, snapshot)
            },
            SocketMessage::Text(Ok(raw)) => {
                self.health.record_activity(now_ms);
                let reported = crate::app_state::copy_text(&raw.error);
                let ghost original = raw;
                match raw.validate() {
                    Ok(payload) => {
                        self.health.record_valid_state(now_ms);
                        self.idle_state_applied = false;
                        self.consecutive_unexpected = 0;
                        let NormalizedTosu { osu, now_playing, live_play, observation } =
                            payload.normalize();
                        let ghost n = NormalizedTosu { osu, now_playing, live_play, observation };
                        let recent = activity.observe(observation);
                        snapshot.tosu.connection = TosuConnection::Connected;
                        snapshot.tosu.message = None;
                        snapshot.osu = osu;
                        snapshot.now_playing = now_playing;
                        snapshot.live_play = live_play;
                        snapshot.recent_activity = recent;
                        let publish = due(&self.last_ui_emit_ms, now_ms, UI_INTERVAL_MS);
                        if publish {
                            self.last_ui_emit_ms = Some(now_ms);
                        }
                        assert(normalizes(n, original));
                        MonitorStep { close: false, publish, log_payload_error: false, end: None }
                    },
                    Err(PayloadError::NotReady) => {
                        self.health.record_valid_state(now_ms);
                        self.idle_state_applied = true;
                        self.consecutive_unexpected = 0;
                        activity.reset();
                        let changed = set_connected_without_osu(snapshot);
                        let reveals = self.linux && match &reported {
                            Some(e) => indicates_memory_access_failure(e.as_str()),
                            None => indicates_memory_access_failure(""),
                        };
                        proof {
                            if reported is None {
                                assert(""@ =~= seq![]) by {
                                    reveal_strlit("");
                                }
                            }
                        }
                        let marked = if reveals {
                            mark_memory_access_possibly_required(snapshot)
                        } else {
                            false
                        };
                        let on_time = due(&self.last_ui_emit_ms, now_ms, UI_INTERVAL_MS);
                        if on_time {
                            self.last_ui_emit_ms = Some(now_ms);
                        }
                        MonitorStep {
                            close: false,
                            publish: changed || marked || on_time,
                            log_payload_error: false,
                            end: None,
                        }
                    },
                    Err(_) => self.on_unexpected(now_ms, snapshot),
                }
            },
        }
    }
}

} // verus!
