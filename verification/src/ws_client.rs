//! The first tosu listener: a connected flag kept alive by pongs and JSON
//! frames on tosu's legacy WebSocket.
use vstd::prelude::*;

use crate::tosu::client::elapsed;

verus! {

/// How long, in milliseconds, to wait before reconnecting.
pub const LEGACY_RETRY_DELAY_MS: u64 = 2_000;

/// How often, in milliseconds, a ping is sent.
pub const LEGACY_HEARTBEAT_MS: u64 = 3_000;

/// How long, in milliseconds, tosu may stay unverified before the
/// connection is dropped.
pub const LEGACY_CONNECTION_TIMEOUT_MS: u64 = 8_000;

/// Whether a connection to tosu is established; shared between the listener
/// and the user interface.
#[derive(Debug, Default)]
pub struct TosuConnectionState {
    connected: std::sync::atomic::AtomicBool,
}

impl TosuConnectionState {
    /// Whether tosu is connected.
    pub fn get(&self) -> bool {
        self.connected.load(std::sync::atomic::Ordering::SeqCst)
    }

    /// Records whether tosu is connected; returns whether that changed, by
    /// `flag_changed` of the value it replaced and the new one.
    pub fn set(&self, connected: bool) -> (changed: bool) {
        let previous = self.connected.swap(connected, std::sync::atomic::Ordering::SeqCst);
        flag_changed(previous, connected)
    }
}

/// Whether a flag that held `previous` changed by being set to `connected`.
pub fn flag_changed(previous: bool, connected: bool) -> (r: bool)
    ensures
        r == (previous != connected),
{
    previous != connected
}

/// Whether `text` is a JSON document (`serde_json::from_str::<Value>` succeeds).
pub uninterp spec fn json_document(text: Seq<char>) -> bool;

/// `serde_json::from_str::<serde_json::Value>`: whether `text` parses as
/// JSON, named `json_document`.
#[verifier::external_body]
fn is_json(text: &str) -> (r: bool)
    ensures
        r == json_document(text@),
{
    serde_json::from_str::<serde_json::Value>(text).is_ok()
}

/// A message on the legacy WebSocket.
#[derive(Debug)]
pub enum LegacyMessage {
    Pong,
    Text(String),
    /// A close frame, an error, or the end of the stream.
    Closed,
    Other,
}

/// What the legacy listener does after a message.
#[derive(Clone, Copy, Debug, PartialEq, Eq, Structural)]
pub enum LegacyStep {
    /// Nothing.
    Continue,
    /// tosu answered: record it and publish the connection as up.
    Verified,
    /// Drop the connection.
    Stop,
}

/// When the legacy connection started and when tosu last answered
/// (monotonic milliseconds).
#[derive(Clone, Copy, Debug, PartialEq, Eq, Structural)]
pub struct LegacyLiveness {
    pub started_at_ms: u64,
    pub last_verified_ms: Option<u64>,
}

impl LegacyLiveness {
    /// A connection that started at `now_ms`.
    pub fn new(now_ms: u64) -> (r: Self)
        ensures
            r == (LegacyLiveness { started_at_ms: now_ms, last_verified_ms: None }),
    {
        LegacyLiveness { started_at_ms: now_ms, last_verified_ms: None }
    }

    /// Whether the connection should be dropped at the heartbeat at
    /// `now_ms`: tosu has not answered for the timeout since it last did (or
    /// since the start).
    pub fn timed_out(&self, now_ms: u64) -> (r: bool)
        ensures
            r == (elapsed(
                now_ms,
                match self.last_verified_ms {
                    Some(t) => t,
                    None => self.started_at_ms,
                },
            ) >= LEGACY_CONNECTION_TIMEOUT_MS),
    {
        let since = match self.last_verified_ms {
            Some(t) => t,
            None => self.started_at_ms,
        };
        let waited = if now_ms >= since {
            now_ms - since
        } else {
            0
        };
        waited >= LEGACY_CONNECTION_TIMEOUT_MS
    }

    /// Takes a message received at `now_ms`: a pong or a JSON text verifies
    /// the connection, its end stops it, anything else is ignored.
    pub fn on_message(&mut self, now_ms: u64, message: &LegacyMessage) -> (r: LegacyStep)
        ensures
            r == match *message {
                LegacyMessage::Pong => LegacyStep::Verified,
                LegacyMessage::Text(t) => if json_document(t@) {
                    LegacyStep::Verified
                } else {
                    LegacyStep::Continue
                },
                LegacyMessage::Closed => LegacyStep::Stop,
                LegacyMessage::Other => LegacyStep::Continue,
            },
            *final(self) == if r == LegacyStep::Verified {
                LegacyLiveness { last_verified_ms: Some(now_ms), ..*old(self) }
            } else {
                *old(self)
            },
    {
        let step = match message {
            LegacyMessage::Pong => LegacyStep::Verified,
            LegacyMessage::Text(t) => if is_json(t.as_str()) {
                LegacyStep::Verified
            } else {
                LegacyStep::Continue
            },
            LegacyMessage::Closed => LegacyStep::Stop,
            LegacyMessage::Other => LegacyStep::Continue,
        };
        if step == LegacyStep::Verified {
            self.last_verified_ms = Some(now_ms);
        }
        step
    }
}

} // verus!
