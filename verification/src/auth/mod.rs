//! Signing in to Hanami: the errors shown to the user, the restoration
//! backoff, and the session runtime that keeps a refresh token usable.
pub mod client;
pub mod loopback;
pub mod token_store;

use vstd::prelude::*;

use crate::app_state::AuthState;
use crate::auth::client::{expiry, text, AccessToken, AuthClientError, AuthConfig, TokenResponse};
use crate::auth::loopback::CallbackError;
use crate::auth::token_store::TokenStoreError;

verus! {

/// Why signing in, refreshing or signing out failed.
#[derive(Clone, Debug, PartialEq, Eq)]
pub enum AuthError {
    AlreadyInProgress,
    BrowserOpen,
    Callback(CallbackError),
    Client(AuthClientError),
    CredentialStore(TokenStoreError),
}

/// The sentence shown to the user for an authentication error.
pub open spec fn user_message_text(error: AuthError) -> Seq<char> {
    match error {
        AuthError::AlreadyInProgress => "another Hanami sign-in is already in progress"@,
        AuthError::BrowserOpen => "Your system browser could not be opened."@,
        AuthError::Callback(c) => match c {
            CallbackError::TimedOut => "Hanami approval timed out. Start the connection again."@,
            CallbackError::AccessDenied => "Hanami connection was cancelled in the browser."@,
            CallbackError::StateMismatch => "The Hanami callback could not be verified."@,
            CallbackError::InvalidPath => "The Hanami callback could not be verified."@,
            _ => "The Hanami callback was incomplete."@,
        },
        AuthError::Client(c) => match c {
            AuthClientError::Network => "Hanami could not be reached. The stored session will be retried."@,
            AuthClientError::Rejected => "The stored Hanami session is no longer valid."@,
            _ => "Hanami could not complete authentication."@,
        },
        AuthError::CredentialStore(_) => "Secure credential storage is unavailable. No token was saved."@,
    }
}

impl AuthError {
    /// The sentence shown to the user for this error.
    pub fn user_message(&self) -> (r: String)
        ensures
            r@ == user_message_text(*self),
    {
        match self {
            AuthError::AlreadyInProgress => text("another Hanami sign-in is already in progress"),
            AuthError::BrowserOpen => text("Your system browser could not be opened."),
            AuthError::Callback(c) => match c {
                CallbackError::TimedOut => text(
                    "Hanami approval timed out. Start the connection again.",
                ),
                CallbackError::AccessDenied => text(
                    "Hanami connection was cancelled in the browser.",
                ),
                CallbackError::StateMismatch => text("The Hanami callback could not be verified."),
                CallbackError::InvalidPath => text("The Hanami callback could not be verified."),
                _ => text("The Hanami callback was incomplete."),
            },
            AuthError::Client(c) => match c {
                AuthClientError::Network => text(
                    "Hanami could not be reached. The stored session will be retried.",
                ),
                AuthClientError::Rejected => text("The stored Hanami session is no longer valid."),
                _ => text("Hanami could not complete authentication."),
            },
            AuthError::CredentialStore(_) => text(
                "Secure credential storage is unavailable. No token was saved.",
            ),
        }
    }
}

/// How an attempt to restore the stored session ended.
#[derive(Clone, Copy, Debug, PartialEq, Eq, Structural)]
pub enum RefreshOutcome {
    Restored,
    NoSession,
    TemporaryFailure,
    Rejected,
    CredentialStoreUnavailable,
}

/// The first delay, in seconds, before retrying a failed restoration.
pub const FIRST_RESTORE_DELAY_SECS: u64 = 2;

/// The longest delay, in seconds, between restoration attempts.
pub const MAX_RESTORE_DELAY_SECS: u64 = 60;

/// The delay that follows `delay`: twice as long, but never past the limit.
pub open spec fn doubled_delay(delay: u64) -> u64 {
    if delay >= MAX_RESTORE_DELAY_SECS / 2 {
        MAX_RESTORE_DELAY_SECS
    } else {
        (2 * delay) as u64
    }
}

/// The delay handed out by the `n`-th retry after a reset (counting from 0).
pub open spec fn restore_delay(n: nat) -> u64
    decreases n,
{
    if n == 0 {
        FIRST_RESTORE_DELAY_SECS
    } else {
        doubled_delay(restore_delay((n - 1) as nat))
    }
}

/// Exponential backoff between attempts to restore the stored session after
/// Hanami was unreachable.
#[derive(Clone, Copy, Debug)]
pub struct RestoreBackoff {
    next_secs: u64,
}

impl RestoreBackoff {
    /// The delay, in seconds, that the next retry will wait.
    pub closed spec fn next_delay(&self) -> u64 {
        self.next_secs
    }

    /// Hands out the next delay, in seconds, and doubles the one after it up
    /// to the limit.
    pub fn take(&mut self) -> (r: u64)
        ensures
            r == old(self).next_delay(),
            final(self).next_delay() == doubled_delay(old(self).next_delay()),
    {
        let delay = self.next_secs;
        self.next_secs = if delay >= MAX_RESTORE_DELAY_SECS / 2 {
            MAX_RESTORE_DELAY_SECS
        } else {
            2 * delay
        };
        delay
    }

    /// Starts the backoff over from the first delay.
    pub fn reset(&mut self)
        ensures
            final(self).next_delay() == FIRST_RESTORE_DELAY_SECS,
    {
        self.next_secs = FIRST_RESTORE_DELAY_SECS;
    }
}

impl Default for RestoreBackoff {
    fn default() -> (r: Self)
        ensures
            r.next_delay() == FIRST_RESTORE_DELAY_SECS,
    {
        RestoreBackoff { next_secs: FIRST_RESTORE_DELAY_SECS }
    }
}

/// The restoration backoff is bounded: after a reset the delays run 2, 4, 8,
/// 16 and 32 seconds and then stay at 60 seconds; no delay is ever shorter
/// than 2 or longer than 60 seconds.
pub proof fn lemma_restore_delay_is_bounded(n: nat)
    ensures
        FIRST_RESTORE_DELAY_SECS <= restore_delay(n) <= MAX_RESTORE_DELAY_SECS,
        n >= 5 ==> restore_delay(n) == MAX_RESTORE_DELAY_SECS,
        n < 5 ==> restore_delay(n) == vstd::arithmetic::power2::pow2(n + 1),
    decreases n,
{
    reveal(vstd::arithmetic::power2::pow2);
    if n > 0 {
        lemma_restore_delay_is_bounded((n - 1) as nat);
        vstd::arithmetic::power2::lemma2_to64();
    } else {
        vstd::arithmetic::power2::lemma2_to64();
    }
}


/// How long before expiry, in milliseconds, an access token is refreshed.
pub const REFRESH_MARGIN_MS: u64 = 90_000;

/// The signed-in session: the access token in memory and whether a refresh
/// token is known to be stored.
#[derive(Clone, Debug)]
pub struct AuthRuntime {
    pub config: AuthConfig,
    pub access: Option<AccessToken>,
    pub refresh_available: bool,
}

/// A session is refreshed only while a refresh token is stored, and then
/// when no access token is in memory or the one in memory expires within
/// 90 seconds; restoration retries wait at most 60 seconds.
pub proof fn lemma_refresh_is_due_near_expiry(runtime: AuthRuntime, now_ms: u64, n: nat)
    ensures
        refresh_due(runtime, now_ms) <==> (runtime.refresh_available && (runtime.access matches Some(
            token,
        ) ==> token.expires_at_ms <= now_ms + 90000)),
        2 <= restore_delay(n) <= 60,
        n >= 5 ==> restore_delay(n) == 60,
{
    lemma_restore_delay_is_bounded(n);
}

/// The runtime with a different session state and the same configuration.
pub open spec fn with_session(
    runtime: AuthRuntime,
    access: Option<AccessToken>,
    refresh_available: bool,
) -> AuthRuntime {
    AuthRuntime { config: runtime.config, access, refresh_available }
}

/// Whether the session is due for a refresh at monotonic time `now_ms`: a
/// refresh token is stored and there is no access token, or it expires
/// within the refresh margin.
pub open spec fn refresh_due(runtime: AuthRuntime, now_ms: u64) -> bool {
    &&& runtime.refresh_available
    &&& match runtime.access {
        None => true,
        Some(token) => token.expires_at_ms <= now_ms + REFRESH_MARGIN_MS,
    }
}

/// What comes after reading the stored refresh token at the start of a
/// restoration.
#[derive(Debug)]
pub enum RefreshStart {
    /// The restoration is over with this result.
    Finished(Result<RefreshOutcome, AuthError>),
    /// Send this refresh token to Hanami.
    Send(String),
}

/// What comes after Hanami answered a refresh request.
#[derive(Debug)]
pub enum RefreshNext {
    /// The restoration is over with this result.
    Finished(Result<RefreshOutcome, AuthError>),
    /// Hanami rejected the session: delete the stored refresh token.
    DeleteStored,
    /// Store this rotated refresh token, then commit the response.
    StoreRotated(String),
}

/// The runtime after reading the stored refresh token.
pub open spec fn after_reading(
    runtime: AuthRuntime,
    stored: Result<Option<String>, TokenStoreError>,
) -> AuthRuntime {
    match stored {
        Err(_) => runtime,
        Ok(None) => with_session(runtime, None, false),
        Ok(Some(_)) => with_session(runtime, runtime.access, true),
    }
}

/// The runtime after Hanami answered a refresh request.
pub open spec fn after_answer(
    runtime: AuthRuntime,
    answer: Result<TokenResponse, AuthClientError>,
) -> AuthRuntime {
    match answer {
        Err(AuthClientError::Rejected) => with_session(runtime, None, false),
        _ => runtime,
    }
}

/// The runtime after a token response was committed, its refresh token
/// having been stored (or not) with result `saved`.
pub open spec fn after_commit(
    runtime: AuthRuntime,
    response: TokenResponse,
    saved: Result<(), TokenStoreError>,
    now_ms: u64,
) -> AuthRuntime {
    match saved {
        Err(_) => runtime,
        Ok(()) => with_session(
            runtime,
            Some(AccessToken {
                value: response.access_token,
                expires_at_ms: expiry(now_ms, response.expires_in),
            }),
            true,
        ),
    }
}

/// The runtime after signing out.
pub open spec fn signed_out(runtime: AuthRuntime) -> AuthRuntime {
    with_session(runtime, None, false)
}

/// The warning shown after signing out: the deletion of the stored token
/// failed, or the revocation failed (or, with no token to revoke, reading
/// the store failed).
pub open spec fn logout_warning(
    stored_failed: bool,
    revoked: Option<Result<(), AuthClientError>>,
    deleted: Result<(), TokenStoreError>,
) -> Option<Seq<char>> {
    let revoke_failed = match revoked {
        Some(r) => r is Err,
        None => stored_failed,
    };
    if deleted is Err {
        Some("Signed out in memory, but the secure credential store could not confirm deletion."@)
    } else if revoke_failed {
        Some("Signed out locally. Hanami could not confirm remote token revocation."@)
    } else {
        None
    }
}

impl AuthRuntime {
    /// A runtime for the Hanami instance of `config`, not signed in.
    pub fn new(config: AuthConfig) -> (r: Self)
        ensures
            r.config == config,
            r.access is None,
            !r.refresh_available,
    {
        AuthRuntime { config, access: None, refresh_available: false }
    }

    /// Records whether a refresh token is stored, from the result of reading
    /// the credential store, and returns it.
    pub fn inspect_stored_session(&mut self, stored: Result<Option<String>, TokenStoreError>) -> (r:
        Result<bool, AuthError>)
        ensures
            match stored {
                Ok(t) => {
                    &&& r == Ok::<bool, AuthError>(t is Some)
                    &&& *final(self) == with_session(*old(self), old(self).access, t is Some)
                },
                Err(e) => {
                    &&& r == Err::<bool, AuthError>(AuthError::CredentialStore(e))
                    &&& *final(self) == *old(self)
                },
            },
    {
        match stored {
            Ok(token) => {
                self.refresh_available = token.is_some();
                Ok(self.refresh_available)
            },
            Err(e) => Err(AuthError::CredentialStore(e)),
        }
    }

    /// Whether the session should be refreshed at monotonic time `now_ms`.
    pub fn should_refresh(&self, now_ms: u64) -> (r: bool)
        ensures
            r == refresh_due(*self, now_ms),
    {
        self.refresh_available && match &self.access {
            None => true,
            Some(token) => (token.expires_at_ms as u128) <= (now_ms as u128) + (
            REFRESH_MARGIN_MS as u128),
        }
    }

    /// Whether the credential store should be asked again for a session:
    /// nothing is stored and nothing is in memory.
    pub fn needs_session_probe(&self) -> (r: bool)
        ensures
            r == (!self.refresh_available && self.access is None),
    {
        !self.refresh_available && self.access.is_none()
    }

    /// Starts a restoration with the result of reading the stored refresh
    /// token: a failed read ends it with the store's error, a missing token
    /// ends the session, a stored token is sent to Hanami.
    pub fn begin_refresh(&mut self, stored: Result<Option<String>, TokenStoreError>) -> (r:
        RefreshStart)
        ensures
            *final(self) == after_reading(*old(self), stored),
            match stored {
                Err(e) => r == RefreshStart::Finished(
                    Err::<RefreshOutcome, AuthError>(AuthError::CredentialStore(e)),
                ),
                Ok(None) => r == RefreshStart::Finished(
                    Ok::<RefreshOutcome, AuthError>(RefreshOutcome::NoSession),
                ),
                Ok(Some(t)) => r == RefreshStart::Send(t),
            },
    {
        match stored {
            Err(e) => RefreshStart::Finished(Err(AuthError::CredentialStore(e))),
            Ok(None) => {
                self.refresh_available = false;
                self.access = None;
                RefreshStart::Finished(Ok(RefreshOutcome::NoSession))
            },
            Ok(Some(token)) => {
                self.refresh_available = true;
                RefreshStart::Send(token)
            },
        }
    }

    /// Continues a restoration with Hanami's answer: an unreachable Hanami is
    /// a temporary failure, a rejection clears the session and deletes the
    /// stored token, a response without a rotated refresh token fails, and a
    /// complete response has its rotated token stored.
    pub fn refresh_answer(&mut self, answer: &Result<TokenResponse, AuthClientError>) -> (r:
        RefreshNext)
        ensures
            *final(self) == after_answer(*old(self), *answer),
            match *answer {
                Err(AuthClientError::Network) => r == RefreshNext::Finished(
                    Ok::<RefreshOutcome, AuthError>(RefreshOutcome::TemporaryFailure),
                ),
                Err(AuthClientError::Rejected) => r == RefreshNext::DeleteStored,
                Err(e) => r == RefreshNext::Finished(
                    Err::<RefreshOutcome, AuthError>(AuthError::Client(e)),
                ),
                Ok(response) => match response.refresh_token {
                    None => r == RefreshNext::Finished(
                        Err::<RefreshOutcome, AuthError>(
                            AuthError::Client(AuthClientError::MissingRefreshToken),
                        ),
                    ),
                    Some(t) => r == RefreshNext::StoreRotated(t),
                },
            },
    {
        match answer {
            Err(AuthClientError::Network) => RefreshNext::Finished(
                Ok(RefreshOutcome::TemporaryFailure),
            ),
            Err(AuthClientError::Rejected) => {
                self.access = None;
                self.refresh_available = false;
                RefreshNext::DeleteStored
            },
            Err(e) => RefreshNext::Finished(Err(AuthError::Client(*e))),
            Ok(response) => match &response.refresh_token {
                None => RefreshNext::Finished(
                    Err(AuthError::Client(AuthClientError::MissingRefreshToken)),
                ),
                Some(token) => RefreshNext::StoreRotated(token.clone()),
            },
        }
    }

    /// Commits a token response whose refresh token was stored with result
    /// `saved`, received at monotonic time `now_ms`: the access token is kept
    /// in memory once the refresh token is safely stored.
    pub fn commit_tokens(
        &mut self,
        response: TokenResponse,
        saved: Result<(), TokenStoreError>,
        now_ms: u64,
    ) -> (r: Result<(), AuthError>)
        ensures
            *final(self) == after_commit(*old(self), response, saved, now_ms),
            match saved {
                Ok(()) => r == Ok::<(), AuthError>(()),
                Err(e) => r == Err::<(), AuthError>(AuthError::CredentialStore(e)),
            },
    {
        match saved {
            Err(e) => Err(AuthError::CredentialStore(e)),
            Ok(()) => {
                self.refresh_available = true;
                self.access = Some(response.into_access_token(now_ms));
                Ok(())
            },
        }
    }

    /// Starts signing out, before anything is sent to Hanami: the session in
    /// memory ends at once, and the rest is returned in the order it is
    /// carried out: the stored refresh token is deleted first, and only then
    /// is Hanami asked to revoke a token, the stored refresh token if it could
    /// be read, else the access token that was in memory, if there is one.
    pub fn begin_logout(&mut self, stored: &Result<Option<String>, TokenStoreError>) -> (r: Vec<
        SignOutAction,
    >)
        ensures
            *final(self) == signed_out(*old(self)),
            r@ == sign_out_plan(token_to_revoke(*old(self), *stored)),
    {
        let token = match stored {
            Ok(Some(token)) => Some(token.clone()),
            _ => match &self.access {
                Some(access) => Some(access.value.clone()),
                None => None,
            },
        };
        self.access = None;
        self.refresh_available = false;
        let mut actions: Vec<SignOutAction> = Vec::new();
        actions.push(SignOutAction::DeleteStored);
        match token {
            Some(t) => actions.push(SignOutAction::Revoke(t)),
            None => {},
        }
        actions
    }
}

/// One step of signing out, after the session in memory has ended.
#[derive(Clone, Debug, PartialEq, Eq)]
pub enum SignOutAction {
    /// Delete the refresh token from the credential store.
    DeleteStored,
    /// Ask Hanami to revoke this token.
    Revoke(String),
}

/// The token that signing out asks Hanami to revoke: the stored refresh
/// token where it could be read, else the access token in memory.
pub open spec fn token_to_revoke(
    runtime: AuthRuntime,
    stored: Result<Option<String>, TokenStoreError>,
) -> Option<String> {
    match stored {
        Ok(Some(t)) => Some(t),
        _ => match runtime.access {
            Some(a) => Some(a.value),
            None => None,
        },
    }
}

/// The steps of signing out in order: the stored token is deleted, then the
/// token, if any, is revoked.
pub open spec fn sign_out_plan(token: Option<String>) -> Seq<SignOutAction> {
    match token {
        Some(t) => seq![SignOutAction::DeleteStored, SignOutAction::Revoke(t)],
        None => seq![SignOutAction::DeleteStored],
    }
}

/// The warning shown after signing out. `stored_failed` is whether reading
/// the store failed, `deleted` the result of deleting the stored token, and
/// `revoked` the result of the revocation if a token was sent.
pub fn logout_message(
    stored_failed: bool,
    deleted: Result<(), TokenStoreError>,
    revoked: Option<Result<(), AuthClientError>>,
) -> (r: Option<String>)
    ensures
        match logout_warning(stored_failed, revoked, deleted) {
            Some(w) => r matches Some(m) && m@ == w,
            None => r is None,
        },
{
    let revoke_failed = match revoked {
        Some(result) => result.is_err(),
        None => stored_failed,
    };
    if deleted.is_err() {
        Some(
            text(
                "Signed out in memory, but the secure credential store could not confirm deletion.",
            ),
        )
    } else if revoke_failed {
        Some(text("Signed out locally. Hanami could not confirm remote token revocation."))
    } else {
        None
    }
}

/// The refresh token to store after Hanami answered the exchange of an
/// authorization code: the exchange must succeed and yield a refresh token.
pub fn exchange_answer(answer: &Result<TokenResponse, AuthClientError>) -> (r: Result<
    String,
    AuthError,
>)
    ensures
        r == match *answer {
            Err(e) => Err::<String, AuthError>(AuthError::Client(e)),
            Ok(response) => match response.refresh_token {
                Some(t) => Ok::<String, AuthError>(t),
                None => Err::<String, AuthError>(
                    AuthError::Client(AuthClientError::MissingRefreshToken),
                ),
            },
        },
{
    match answer {
        Err(e) => Err(AuthError::Client(*e)),
        Ok(response) => match &response.refresh_token {
            Some(token) => Ok(token.clone()),
            None => Err(AuthError::Client(AuthClientError::MissingRefreshToken)),
        },
    }
}

/// The end of a restoration whose stored token was deleted after a
/// rejection, with result `deleted`.
pub fn finish_rejection(deleted: Result<(), TokenStoreError>) -> (r: Result<
    RefreshOutcome,
    AuthError,
>)
    ensures
        match deleted {
            Ok(()) => r == Ok::<RefreshOutcome, AuthError>(RefreshOutcome::Rejected),
            Err(e) => r == Err::<RefreshOutcome, AuthError>(AuthError::CredentialStore(e)),
        },
{
    match deleted {
        Ok(()) => Ok(RefreshOutcome::Rejected),
        Err(e) => Err(AuthError::CredentialStore(e)),
    }
}

/// A restoration that found Hanami unreachable leaves the stored session in
/// place, so it is retried: the session stays due for refresh exactly when
/// the access token in memory is missing or about to expire.
pub proof fn lemma_unreachable_hanami_keeps_refreshing(
    runtime: AuthRuntime,
    stored: String,
    now_ms: u64,
)
    ensures
        ({
            let after = after_answer(
                after_reading(runtime, Ok(Some(stored))),
                Err(AuthClientError::Network),
            );
            &&& after.refresh_available
            &&& refresh_due(after, now_ms) == match runtime.access {
                None => true,
                Some(token) => token.expires_at_ms <= now_ms + REFRESH_MARGIN_MS,
            }
        }),
{
}

/// A rejected refresh ends the session: nothing is kept in memory, no refresh
/// is due any more, and the store is probed again for a new session.
pub proof fn lemma_rejected_refresh_ends_the_session(runtime: AuthRuntime, now_ms: u64)
    ensures
        ({
            let after = after_answer(runtime, Err(AuthClientError::Rejected));
            &&& !after.refresh_available
            &&& after.access is None
            &&& !refresh_due(after, now_ms)
        }),
{
}

/// Tokens are kept in memory only once the refresh token is stored: a failed
/// save leaves the session as it was, a successful one makes a fresh session
/// that is not due for refresh while its lifetime exceeds the margin.
pub proof fn lemma_tokens_are_kept_only_once_stored(
    runtime: AuthRuntime,
    response: TokenResponse,
    error: TokenStoreError,
    now_ms: u64,
)
    ensures
        after_commit(runtime, response, Err(error), now_ms) == runtime,
        after_commit(runtime, response, Ok(()), now_ms).refresh_available,
        response.expires_in * 1000 > REFRESH_MARGIN_MS && now_ms + REFRESH_MARGIN_MS < u64::MAX
            ==> !refresh_due(
            after_commit(runtime, response, Ok(()), now_ms),
            now_ms,
        ),
{
}

/// Signing out ends the session in memory first, before the store or Hanami
/// answers anything, so it ends whatever they answer; the store is then
/// probed again for a new session. The stored token is deleted before any
/// token is sent to Hanami for revocation.
pub proof fn lemma_sign_out_ends_the_session(
    runtime: AuthRuntime,
    now_ms: u64,
    stored: Result<Option<String>, TokenStoreError>,
)
    ensures
        !signed_out(runtime).refresh_available,
        signed_out(runtime).access is None,
        !refresh_due(signed_out(runtime), now_ms),
        signed_out(runtime).config == runtime.config,
        sign_out_plan(token_to_revoke(runtime, stored))[0] == SignOutAction::DeleteStored,
        forall|i: int|
            0 < i < sign_out_plan(token_to_revoke(runtime, stored)).len() ==> (
            #[trigger] sign_out_plan(token_to_revoke(runtime, stored))[i]) is Revoke,
{
}

/// How long, in seconds, the session supervisor waits while a sign-in runs.
pub const SIGN_IN_WAIT_SECS: u64 = 2;

/// How long, in seconds, the session supervisor waits when nothing is due.
pub const IDLE_WAIT_SECS: u64 = 30;

/// What the session supervisor does when its wait ends.
#[derive(Clone, Copy, Debug, PartialEq, Eq, Structural)]
pub enum SupervisorStep {
    /// Companion is shutting down: the supervisor ends.
    Stop,
    /// Wait this many seconds and look again.
    Wait(u64),
    /// Restore the session; the next wait is `delay_after_refresh`.
    Refresh,
    /// Inspect the credential store; the next wait is `delay_after_inspection`.
    Probe,
}

/// The session supervisor's decision, in this order: stop when Companion
/// shuts down; leave the session alone while a sign-in runs; restore the
/// session when a refresh is due; otherwise inspect the store when a
/// session may have appeared there; otherwise wait half a minute.
pub fn supervisor_step(
    shutting_down: bool,
    signing_in: bool,
    refresh_due: bool,
    probe_due: bool,
) -> (r: SupervisorStep)
    ensures
        r == if shutting_down {
            SupervisorStep::Stop
        } else if signing_in {
            SupervisorStep::Wait(SIGN_IN_WAIT_SECS)
        } else if refresh_due {
            SupervisorStep::Refresh
        } else if probe_due {
            SupervisorStep::Probe
        } else {
            SupervisorStep::Wait(IDLE_WAIT_SECS)
        },
{
    if shutting_down {
        SupervisorStep::Stop
    } else if signing_in {
        SupervisorStep::Wait(SIGN_IN_WAIT_SECS)
    } else if refresh_due {
        SupervisorStep::Refresh
    } else if probe_due {
        SupervisorStep::Probe
    } else {
        SupervisorStep::Wait(IDLE_WAIT_SECS)
    }
}

/// Signing out revokes the refresh token read from the credential store,
/// whatever access token is in memory; only when no stored token could be
/// read is the access token in memory revoked, and with neither nothing is
/// sent. The stored token is always deleted first.
pub proof fn lemma_sign_out_revokes_the_stored_token(
    runtime: AuthRuntime,
    stored: Result<Option<String>, TokenStoreError>,
)
    ensures
        stored matches Ok(Some(t)) ==> sign_out_plan(token_to_revoke(runtime, stored)) == seq![
            SignOutAction::DeleteStored,
            SignOutAction::Revoke(t),
        ],
        runtime.access matches Some(a) ==> (!(stored matches Ok(Some(_))) ==> sign_out_plan(
            token_to_revoke(runtime, stored),
        ) == seq![SignOutAction::DeleteStored, SignOutAction::Revoke(a.value)]),
        !(stored matches Ok(Some(_))) && runtime.access is None ==> sign_out_plan(
            token_to_revoke(runtime, stored),
        ) == seq![SignOutAction::DeleteStored],
{
}

/// The delay, in seconds, before the supervisor looks at the session again
/// after the store was inspected: at once when a session is stored, else
/// after half a minute.
pub open spec fn inspection_delay(inspected: Result<bool, AuthError>) -> u64 {
    match inspected {
        Ok(true) => 0,
        _ => 30,
    }
}

/// The delay, in seconds, before the supervisor looks at the session again
/// after inspecting the credential store.
pub fn delay_after_inspection(inspected: &Result<bool, AuthError>) -> (r: u64)
    ensures
        r == inspection_delay(*inspected),
{
    match inspected {
        Ok(true) => 0,
        _ => 30,
    }
}

/// The delay, in seconds, before the supervisor looks at the session again
/// after a restoration ended with `outcome`: a temporary failure waits out
/// the backoff, anything else resets it and waits half a minute.
pub fn delay_after_refresh(backoff: &mut RestoreBackoff, outcome: RefreshOutcome) -> (r: u64)
    ensures
        outcome == RefreshOutcome::TemporaryFailure ==> {
            &&& r == old(backoff).next_delay()
            &&& final(backoff).next_delay() == doubled_delay(old(backoff).next_delay())
        },
        outcome != RefreshOutcome::TemporaryFailure ==> {
            &&& r == 30
            &&& final(backoff).next_delay() == FIRST_RESTORE_DELAY_SECS
        },
{
    match outcome {
        RefreshOutcome::TemporaryFailure => backoff.take(),
        _ => {
            backoff.reset();
            30
        },
    }
}

/// The authentication state and message the user sees after a restoration
/// ended with `result`, and the outcome the supervisor goes on with; `None`
/// leaves the state as it is.
pub open spec fn refresh_report_spec(result: Result<RefreshOutcome, AuthError>) -> (
    RefreshOutcome,
    Option<(AuthState, Option<Seq<char>>)>,
) {
    match result {
        Ok(RefreshOutcome::Restored) => (
            RefreshOutcome::Restored,
            Some((AuthState::SignedIn, Some("Connected to Hanami"@))),
        ),
        Ok(RefreshOutcome::TemporaryFailure) => (
            RefreshOutcome::TemporaryFailure,
            Some(
                (
                    AuthState::Error,
                    Some("Hanami is temporarily unreachable. Session restoration will retry."@),
                ),
            ),
        ),
        Ok(RefreshOutcome::Rejected) => (
            RefreshOutcome::Rejected,
            Some((AuthState::SignedOut, None)),
        ),
        Ok(RefreshOutcome::NoSession) => (
            RefreshOutcome::NoSession,
            Some((AuthState::SignedOut, None)),
        ),
        Ok(RefreshOutcome::CredentialStoreUnavailable) => (
            RefreshOutcome::CredentialStoreUnavailable,
            None,
        ),
        Err(AuthError::CredentialStore(e)) => (
            RefreshOutcome::CredentialStoreUnavailable,
            Some((AuthState::Error, Some(user_message_text(AuthError::CredentialStore(e))))),
        ),
        Err(e) => (
            RefreshOutcome::TemporaryFailure,
            Some((AuthState::Error, Some(user_message_text(e)))),
        ),
    }
}

/// The view of a reported state.
pub open spec fn report_view(report: Option<(AuthState, Option<String>)>) -> Option<
    (AuthState, Option<Seq<char>>),
> {
    match report {
        None => None,
        Some((state, None)) => Some((state, None)),
        Some((state, Some(m))) => Some((state, Some(m@))),
    }
}

/// The authentication state to show after a restoration ended with
/// `result`, and the outcome the supervisor goes on with.
pub fn refresh_report(result: &Result<RefreshOutcome, AuthError>) -> (r: (
    RefreshOutcome,
    Option<(AuthState, Option<String>)>,
))
    ensures
        r.0 == refresh_report_spec(*result).0,
        report_view(r.1) == refresh_report_spec(*result).1,
{
    match result {
        Ok(RefreshOutcome::Restored) => (
            RefreshOutcome::Restored,
            Some((AuthState::SignedIn, Some(text("Connected to Hanami")))),
        ),
        Ok(RefreshOutcome::TemporaryFailure) => (
            RefreshOutcome::TemporaryFailure,
            Some(
                (
                    AuthState::Error,
                    Some(text("Hanami is temporarily unreachable. Session restoration will retry.")),
                ),
            ),
        ),
        Ok(RefreshOutcome::Rejected) => (
            RefreshOutcome::Rejected,
            Some((AuthState::SignedOut, None)),
        ),
        Ok(RefreshOutcome::NoSession) => (
            RefreshOutcome::NoSession,
            Some((AuthState::SignedOut, None)),
        ),
        Ok(RefreshOutcome::CredentialStoreUnavailable) => (
            RefreshOutcome::CredentialStoreUnavailable,
            None,
        ),
        Err(error) => {
            let outcome = match error {
                AuthError::CredentialStore(_) => RefreshOutcome::CredentialStoreUnavailable,
                _ => RefreshOutcome::TemporaryFailure,
            };
            (outcome, Some((AuthState::Error, Some(error.user_message()))))
        },
    }
}

/// The name of the operating system as Hanami knows it, from Rust's name
/// for the target's operating system.
pub open spec fn platform_text(target_os: Seq<char>) -> Seq<char> {
    if target_os == "windows"@ {
        "windows"@
    } else if target_os == "linux"@ {
        "linux"@
    } else if target_os == "macos"@ {
        "macos"@
    } else {
        "unknown"@
    }
}

/// The name of the operating system sent to Hanami when signing in, from
/// Rust's name for the target's operating system (`std::env::consts::OS`).
pub fn platform_name(target_os: &str) -> (r: &'static str)
    ensures
        r@ == platform_text(target_os@),
{
    if crate::text::str_equal(target_os, "windows") {
        "windows"
    } else if crate::text::str_equal(target_os, "linux") {
        "linux"
    } else if crate::text::str_equal(target_os, "macos") {
        "macos"
    } else {
        "unknown"
    }
}

/// Whether `c` is alphabetic or numeric in Unicode (`char::is_alphanumeric`).
pub uninterp spec fn char_alphanumeric(c: char) -> bool;

/// `char::is_alphanumeric`: whether `c` is alphabetic or numeric by the
/// Unicode character tables, named `char_alphanumeric`.
#[verifier::external_body]
fn alphanumeric(c: char) -> (r: bool)
    ensures
        r == char_alphanumeric(c),
{
    c.is_alphanumeric()
}

/// The longest device name, in characters, sent to Hanami.
pub const DEVICE_NAME_MAX_CHARS: usize = 64;

/// Whether `c` may appear in the device name sent to Hanami.
pub open spec fn device_name_char(c: char) -> bool {
    char_alphanumeric(c) || c == ' ' || c == '.' || c == '_' || c == '-'
}

/// The characters of `s` that may appear in a device name, in order.
pub open spec fn device_name_chars(s: Seq<char>) -> Seq<char>
    decreases s.len(),
{
    if s.len() == 0 {
        seq![]
    } else if device_name_char(s.last()) {
        device_name_chars(s.drop_last()).push(s.last())
    } else {
        device_name_chars(s.drop_last())
    }
}

/// The first `n` elements of `s`, or all of it when it is shorter.
pub open spec fn at_most(s: Seq<char>, n: nat) -> Seq<char> {
    if s.len() <= n {
        s
    } else {
        s.take(n as int)
    }
}

/// The device name sent to Hanami for the host name `host` (if known): its
/// allowed characters, at most 64 of them, or `Hanami Companion` where
/// nothing but white space is left.
pub open spec fn device_name(host: Option<Seq<char>>) -> Seq<char> {
    let source = match host {
        Some(h) => h,
        None => "Hanami Companion"@,
    };
    let value = at_most(device_name_chars(source), DEVICE_NAME_MAX_CHARS as nat);
    if crate::text::trim(value).len() == 0 {
        "Hanami Companion"@
    } else {
        value
    }
}

/// The device name sent to Hanami for the host name `host`, read from the
/// environment by the caller (`None` where it is not set).
pub fn safe_device_name(host: Option<String>) -> (r: String)
    ensures
        r@ == device_name(
            match host {
                Some(h) => Some(h@),
                None => None,
            },
        ),
{
    let source = match &host {
        Some(h) => crate::text::chars_of(h.as_str()),
        None => crate::text::chars_of("Hanami Companion"),
    };
    let ghost src = source@;
    let mut kept: Vec<char> = Vec::new();
    let mut i: usize = 0;
    assert(src.take(0) =~= seq![]);
    while i < source.len()
        invariant
            i <= source.len(),
            src == source@,
            kept@ == at_most(device_name_chars(src.take(i as int)), DEVICE_NAME_MAX_CHARS as nat),
        decreases source.len() - i,
    {
        let c = source[i];
        assert(src.take(i + 1).drop_last() =~= src.take(i as int));
        assert(src.take(i + 1).last() == c);
        let ghost before = device_name_chars(src.take(i as int));
        if alphanumeric(c) || c == ' ' || c == '.' || c == '_' || c == '-' {
            if kept.len() < DEVICE_NAME_MAX_CHARS {
                kept.push(c);
                assert(kept@ =~= before.push(c));
            } else {
                assert(before.push(c).take(64) =~= before.take(64));
            }
        }
        i = i + 1;
    }
    assert(src.take(source.len() as int) =~= src);
    let (a, b) = crate::text::trim_bounds(&kept);
    if a < b {
        crate::text::string_of(&kept)
    } else {
        text("Hanami Companion")
    }
}

} // verus!
