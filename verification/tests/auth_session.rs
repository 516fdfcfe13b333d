use std::cell::RefCell;
use std::time::Duration;

use hanami_companion::app_state::AuthState;
use hanami_companion::auth::client::{AccessToken, AuthClientError, AuthConfig, TokenResponse};
use hanami_companion::auth::loopback::CallbackError;
use hanami_companion::auth::token_store::{credential, TokenStore, TokenStoreError};
use hanami_companion::auth::{
    delay_after_inspection, delay_after_refresh, exchange_answer, finish_rejection, logout_message,
    platform_name, refresh_report, safe_device_name, AuthError, AuthRuntime, RefreshNext,
    RefreshOutcome, RefreshStart, RestoreBackoff, SignOutAction, SupervisorStep, supervisor_step,
};

struct FakeStore(RefCell<Option<String>>);

impl TokenStore for FakeStore {
    fn load(&self) -> Result<Option<String>, TokenStoreError> {
        Ok(self.0.borrow().clone())
    }

    fn save(&self, refresh_token: &str) -> Result<(), TokenStoreError> {
        *self.0.borrow_mut() = Some(refresh_token.to_string());
        Ok(())
    }

    fn delete(&self) -> Result<(), TokenStoreError> {
        *self.0.borrow_mut() = None;
        Ok(())
    }
}

fn token(refresh: &str) -> TokenResponse {
    TokenResponse {
        access_token: "access".into(),
        refresh_token: Some(refresh.into()),
        expires_in: 3600,
        token_type: Some("Bearer".into()),
    }
}

fn runtime() -> (AuthRuntime, FakeStore) {
    let mut runtime = AuthRuntime::new(AuthConfig::from_override(None, true));
    runtime.refresh_available = true;
    (runtime, FakeStore(RefCell::new(Some("stored-refresh".into()))))
}

/// Runs one restoration against the fake store with Hanami's `answer`.
fn refresh(
    runtime: &mut AuthRuntime,
    store: &FakeStore,
    answer: Result<TokenResponse, AuthClientError>,
    now_ms: u64,
) -> Result<RefreshOutcome, AuthError> {
    match runtime.begin_refresh(store.load()) {
        RefreshStart::Finished(result) => result,
        RefreshStart::Send(stored) => {
            assert_eq!(stored, "stored-refresh");
            match runtime.refresh_answer(&answer) {
                RefreshNext::Finished(result) => result,
                RefreshNext::DeleteStored => finish_rejection(store.delete()),
                RefreshNext::StoreRotated(rotated) => {
                    let saved = store.save(&rotated);
                    let response = answer.expect("a rotated token comes with a response");
                    runtime
                        .commit_tokens(response, saved, now_ms)
                        .map(|()| RefreshOutcome::Restored)
                }
            }
        }
    }
}

#[test]
fn restoration_retries_after_a_temporary_network_failure() {
    let (mut runtime, store) = runtime();
    assert_eq!(
        refresh(&mut runtime, &store, Err(AuthClientError::Network), 0).expect("temporary"),
        RefreshOutcome::TemporaryFailure
    );
    assert!(runtime.should_refresh(0));
    *store.0.borrow_mut() = Some("stored-refresh".into());
    assert_eq!(
        refresh(&mut runtime, &store, Ok(token("rotated")), 0).expect("restored"),
        RefreshOutcome::Restored
    );
    assert!(!runtime.should_refresh(0));
    assert_eq!(store.0.borrow().as_deref(), Some("rotated"));
}

#[test]
fn rejected_refresh_clears_the_stored_session() {
    let (mut runtime, store) = runtime();
    assert_eq!(
        refresh(&mut runtime, &store, Err(AuthClientError::Rejected), 0).expect("rejected"),
        RefreshOutcome::Rejected
    );
    assert!(store.0.borrow().is_none());
    assert!(!runtime.refresh_available);
}

#[test]
fn offline_logout_still_deletes_the_local_credential() {
    let (mut runtime, store) = runtime();
    let stored = store.load();
    let actions = runtime.begin_logout(&stored);
    assert!(!runtime.refresh_available);
    assert!(runtime.access.is_none());
    assert_eq!(
        actions,
        vec![SignOutAction::DeleteStored, SignOutAction::Revoke("stored-refresh".into())]
    );
    let deleted = store.delete();
    assert!(store.0.borrow().is_none());
    let warning = logout_message(stored.is_err(), deleted, Some(Err(AuthClientError::Network)));
    assert!(warning.is_some());
    assert!(store.0.borrow().is_none());
    assert!(!runtime.refresh_available);
}

#[test]
fn restoration_backoff_is_bounded() {
    let mut backoff = RestoreBackoff::default();
    assert_eq!(Duration::from_secs(backoff.take()), Duration::from_secs(2));
    for _ in 0..10 {
        backoff.take();
    }
    assert_eq!(Duration::from_secs(backoff.take()), Duration::from_secs(60));
}

#[test]
fn restoration_backoff_doubles_until_the_limit_and_resets() {
    let mut backoff = RestoreBackoff::default();
    let delays: Vec<u64> = (0..7).map(|_| backoff.take()).collect();
    assert_eq!(delays, vec![2, 4, 8, 16, 32, 60, 60]);
    backoff.reset();
    assert_eq!(backoff.take(), 2);
}

#[test]
fn supervisor_delays_follow_the_outcome() {
    let mut backoff = RestoreBackoff::default();
    assert_eq!(delay_after_refresh(&mut backoff, RefreshOutcome::TemporaryFailure), 2);
    assert_eq!(delay_after_refresh(&mut backoff, RefreshOutcome::TemporaryFailure), 4);
    assert_eq!(delay_after_refresh(&mut backoff, RefreshOutcome::Restored), 30);
    assert_eq!(delay_after_refresh(&mut backoff, RefreshOutcome::TemporaryFailure), 2);
    assert_eq!(delay_after_inspection(&Ok(true)), 0);
    assert_eq!(delay_after_inspection(&Ok(false)), 30);
    assert_eq!(
        delay_after_inspection(&Err(AuthError::CredentialStore(TokenStoreError::Unavailable(
            "locked".into()
        )))),
        30
    );
}

#[test]
fn a_missing_stored_token_ends_the_session() {
    let (mut runtime, _) = runtime();
    runtime.access = Some(AccessToken { value: "access".into(), expires_at_ms: 10 });
    match runtime.begin_refresh(Ok(None)) {
        RefreshStart::Finished(Ok(outcome)) => assert_eq!(outcome, RefreshOutcome::NoSession),
        other => panic!("unexpected step {other:?}"),
    }
    assert!(runtime.access.is_none());
    assert!(!runtime.refresh_available);
    assert!(runtime.needs_session_probe());
}

#[test]
fn an_unreadable_store_ends_the_restoration_with_its_error() {
    let (mut runtime, _) = runtime();
    let error = TokenStoreError::Unavailable("locked".into());
    match runtime.begin_refresh(Err(error.clone())) {
        RefreshStart::Finished(Err(e)) => assert_eq!(e, AuthError::CredentialStore(error)),
        other => panic!("unexpected step {other:?}"),
    }
    assert!(runtime.refresh_available);
}

#[test]
fn a_response_without_a_rotated_token_fails() {
    let (mut runtime, _) = runtime();
    let mut response = token("unused");
    response.refresh_token = None;
    match runtime.refresh_answer(&Ok(response)) {
        RefreshNext::Finished(Err(e)) => {
            assert_eq!(e, AuthError::Client(AuthClientError::MissingRefreshToken))
        }
        other => panic!("unexpected step {other:?}"),
    }
    match runtime.refresh_answer(&Err(AuthClientError::InvalidResponse)) {
        RefreshNext::Finished(Err(e)) => {
            assert_eq!(e, AuthError::Client(AuthClientError::InvalidResponse))
        }
        other => panic!("unexpected step {other:?}"),
    }
}

#[test]
fn tokens_are_kept_only_once_stored() {
    let mut runtime = AuthRuntime::new(AuthConfig::from_override(None, true));
    let failure = TokenStoreError::Unavailable("locked".into());
    assert_eq!(
        runtime.commit_tokens(token("r"), Err(failure.clone()), 1_000),
        Err(AuthError::CredentialStore(failure))
    );
    assert!(runtime.access.is_none());
    assert!(!runtime.refresh_available);
    assert_eq!(runtime.commit_tokens(token("r"), Ok(()), 1_000), Ok(()));
    let access = runtime.access.clone().expect("access token");
    assert_eq!(access.value, "access");
    assert_eq!(access.expires_at_ms, 1_000 + 3_600_000);
    assert!(!runtime.should_refresh(1_000));
    assert!(runtime.should_refresh(1_000 + 3_600_000 - 90_000));
    assert!(!runtime.should_refresh(1_000 + 3_600_000 - 90_001));
}

#[test]
fn inspecting_the_store_records_a_stored_session() {
    let mut runtime = AuthRuntime::new(AuthConfig::from_override(None, true));
    assert!(runtime.needs_session_probe());
    assert_eq!(runtime.inspect_stored_session(Ok(Some("t".into()))), Ok(true));
    assert!(runtime.refresh_available);
    assert!(runtime.should_refresh(0));
    assert_eq!(runtime.inspect_stored_session(Ok(None)), Ok(false));
    assert!(!runtime.refresh_available);
}

#[test]
fn logout_warnings_name_what_failed() {
    let store_error = TokenStoreError::Unavailable("locked".into());
    assert_eq!(logout_message(false, Ok(()), Some(Ok(()))), None);
    assert_eq!(
        logout_message(false, Err(store_error.clone()), Some(Ok(()))).as_deref(),
        Some("Signed out in memory, but the secure credential store could not confirm deletion.")
    );
    assert_eq!(
        logout_message(true, Ok(()), None).as_deref(),
        Some("Signed out locally. Hanami could not confirm remote token revocation.")
    );
    let mut runtime = AuthRuntime::new(AuthConfig::from_override(None, true));
    runtime.access = Some(AccessToken { value: "in-memory".into(), expires_at_ms: 5 });
    runtime.refresh_available = true;
    assert_eq!(
        runtime.begin_logout(&Err(store_error)),
        vec![SignOutAction::DeleteStored, SignOutAction::Revoke("in-memory".into())]
    );
    assert!(runtime.access.is_none());
    assert!(!runtime.refresh_available);
    assert_eq!(runtime.begin_logout(&Ok(None)), vec![SignOutAction::DeleteStored]);
}

#[test]
fn the_supervisor_decides_in_order() {
    assert_eq!(supervisor_step(true, true, true, true), SupervisorStep::Stop);
    assert_eq!(supervisor_step(false, true, true, true), SupervisorStep::Wait(2));
    assert_eq!(supervisor_step(false, false, true, true), SupervisorStep::Refresh);
    assert_eq!(supervisor_step(false, false, false, true), SupervisorStep::Probe);
    assert_eq!(supervisor_step(false, false, false, false), SupervisorStep::Wait(30));
}

#[test]
fn user_messages_describe_each_error() {
    assert_eq!(
        AuthError::AlreadyInProgress.user_message(),
        "another Hanami sign-in is already in progress"
    );
    assert_eq!(AuthError::BrowserOpen.user_message(), "Your system browser could not be opened.");
    assert_eq!(
        AuthError::Callback(CallbackError::TimedOut).user_message(),
        "Hanami approval timed out. Start the connection again."
    );
    assert_eq!(
        AuthError::Callback(CallbackError::AccessDenied).user_message(),
        "Hanami connection was cancelled in the browser."
    );
    assert_eq!(
        AuthError::Callback(CallbackError::StateMismatch).user_message(),
        "The Hanami callback could not be verified."
    );
    assert_eq!(
        AuthError::Callback(CallbackError::InvalidPath).user_message(),
        "The Hanami callback could not be verified."
    );
    assert_eq!(
        AuthError::Callback(CallbackError::MissingCode).user_message(),
        "The Hanami callback was incomplete."
    );
    assert_eq!(
        AuthError::Client(AuthClientError::Network).user_message(),
        "Hanami could not be reached. The stored session will be retried."
    );
    assert_eq!(
        AuthError::Client(AuthClientError::Rejected).user_message(),
        "The stored Hanami session is no longer valid."
    );
    assert_eq!(
        AuthError::Client(AuthClientError::InvalidUrl).user_message(),
        "Hanami could not complete authentication."
    );
    assert_eq!(
        AuthError::CredentialStore(TokenStoreError::Unavailable("x".into())).user_message(),
        "Secure credential storage is unavailable. No token was saved."
    );
}

#[test]
fn refresh_reports_map_outcomes_to_auth_states() {
    let (outcome, report) = refresh_report(&Ok(RefreshOutcome::Restored));
    assert_eq!(outcome, RefreshOutcome::Restored);
    assert_eq!(report, Some((AuthState::SignedIn, Some("Connected to Hanami".to_string()))));
    let (outcome, report) = refresh_report(&Ok(RefreshOutcome::Rejected));
    assert_eq!(outcome, RefreshOutcome::Rejected);
    assert_eq!(report, Some((AuthState::SignedOut, None)));
    let (outcome, report) = refresh_report(&Ok(RefreshOutcome::CredentialStoreUnavailable));
    assert_eq!(outcome, RefreshOutcome::CredentialStoreUnavailable);
    assert_eq!(report, None);
    let (outcome, report) = refresh_report(&Err(AuthError::CredentialStore(
        TokenStoreError::Unavailable("x".into()),
    )));
    assert_eq!(outcome, RefreshOutcome::CredentialStoreUnavailable);
    assert_eq!(
        report,
        Some((
            AuthState::Error,
            Some("Secure credential storage is unavailable. No token was saved.".to_string())
        ))
    );
    let (outcome, report) = refresh_report(&Err(AuthError::Client(AuthClientError::InvalidResponse)));
    assert_eq!(outcome, RefreshOutcome::TemporaryFailure);
    assert_eq!(
        report,
        Some((AuthState::Error, Some("Hanami could not complete authentication.".to_string())))
    );
    let (_, report) = refresh_report(&Ok(RefreshOutcome::TemporaryFailure));
    assert_eq!(
        report,
        Some((
            AuthState::Error,
            Some("Hanami is temporarily unreachable. Session restoration will retry.".to_string())
        ))
    );
}

#[test]
fn the_code_exchange_must_yield_a_refresh_token() {
    assert_eq!(exchange_answer(&Ok(token("fresh"))), Ok("fresh".to_string()));
    let mut bare = token("unused");
    bare.refresh_token = None;
    assert_eq!(
        exchange_answer(&Ok(bare)),
        Err(AuthError::Client(AuthClientError::MissingRefreshToken))
    );
    assert_eq!(
        exchange_answer(&Err(AuthClientError::Rejected)),
        Err(AuthError::Client(AuthClientError::Rejected))
    );
}

#[test]
fn platform_names_follow_the_target() {
    assert_eq!(platform_name("windows"), "windows");
    assert_eq!(platform_name("linux"), "linux");
    assert_eq!(platform_name("macos"), "macos");
    assert_eq!(platform_name("freebsd"), "unknown");
}

#[test]
fn device_names_keep_only_safe_characters() {
    assert_eq!(safe_device_name(Some("my-pc.local_1".into())), "my-pc.local_1");
    assert_eq!(safe_device_name(Some("bad/\\name<>!".into())), "badname");
    assert_eq!(safe_device_name(Some("Ünïcode PC".into())), "Ünïcode PC");
    assert_eq!(safe_device_name(Some("///".into())), "Hanami Companion");
    assert_eq!(safe_device_name(Some("   ".into())), "Hanami Companion");
    assert_eq!(safe_device_name(None), "Hanami Companion");
    let long = "x".repeat(100);
    assert_eq!(safe_device_name(Some(long)), "x".repeat(64));
}

#[test]
fn the_refresh_token_lives_under_one_credential() {
    let (service, account) = credential();
    assert_eq!(service, "com.yorunoken.hanami.companion");
    assert_eq!(account, "hanami-refresh-token");
}
