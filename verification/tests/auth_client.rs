use hanami_companion::auth::client::{
    validate_token_response, AuthClientError, AuthConfig, TokenResponse,
};
use hanami_companion::auth::token_store::{deleted_token, loaded_token, KeyringFailure, TokenStoreError};

/// Decodes a token response as Hanami sends it: a JSON object with a text
/// `access_token`, a number `expires_in` and optional text fields.
fn parse_token_response(body: &str) -> Result<TokenResponse, AuthClientError> {
    let value: serde_json::Value =
        serde_json::from_str(body).map_err(|_| AuthClientError::InvalidResponse)?;
    let text = |key: &str| value.get(key).and_then(|v| v.as_str()).map(str::to_owned);
    let response = TokenResponse {
        access_token: text("access_token").ok_or(AuthClientError::InvalidResponse)?,
        refresh_token: text("refresh_token"),
        expires_in: value
            .get("expires_in")
            .and_then(|v| v.as_u64())
            .ok_or(AuthClientError::InvalidResponse)?,
        token_type: text("token_type"),
    };
    validate_token_response(response)
}

#[test]
fn parses_current_token_response_without_profile_fields() {
    let response = parse_token_response(
        r#"{"access_token":"access","refresh_token":"refresh","expires_in":3600,"token_type":"Bearer"}"#,
    )
    .expect("valid response");
    assert_eq!(response.refresh_token.as_deref(), Some("refresh"));
}

#[test]
fn rejects_empty_or_malformed_token_responses() {
    assert!(parse_token_response(r#"{"access_token":"","expires_in":3600}"#).is_err());
    assert!(parse_token_response(r#"{"access_token":"access"}"#).is_err());
}

#[test]
fn token_types_other_than_bearer_are_refused() {
    let response = |kind: Option<&str>, expires_in: u64| TokenResponse {
        access_token: "a".into(),
        refresh_token: None,
        expires_in,
        token_type: kind.map(str::to_owned),
    };
    assert!(validate_token_response(response(Some("bEaReR"), 1)).is_ok());
    assert!(validate_token_response(response(None, 1)).is_ok());
    assert_eq!(
        validate_token_response(response(Some("mac"), 1)).err(),
        Some(AuthClientError::InvalidResponse)
    );
    assert_eq!(
        validate_token_response(response(Some("bearer"), 0)).err(),
        Some(AuthClientError::InvalidResponse)
    );
}

#[test]
fn access_tokens_expire_after_their_lifetime() {
    let response = TokenResponse {
        access_token: "access".into(),
        refresh_token: None,
        expires_in: 60,
        token_type: None,
    };
    let token = response.into_access_token(5_000);
    assert_eq!(token.value, "access");
    assert_eq!(token.expires_at_ms, 65_000);
    let forever = TokenResponse { expires_in: u64::MAX, ..TokenResponse {
        access_token: "a".into(), refresh_token: None, expires_in: 1, token_type: None } };
    assert_eq!(forever.into_access_token(1).expires_at_ms, u64::MAX);
}

#[test]
fn the_configured_instance_follows_the_override_and_build() {
    let production = AuthConfig::from_override(None, true);
    assert_eq!(production.base_url(), "https://hanami.yorunoken.com");
    assert!(production.is_production());
    let development = AuthConfig::from_override(None, false);
    assert_eq!(development.base_url(), "http://localhost:3000");
    assert!(!development.is_production());
    let custom = AuthConfig::from_override(Some("https://example.test//".into()), true);
    assert_eq!(custom.base_url(), "https://example.test");
    let blank = AuthConfig::from_override(Some("   ".into()), true);
    assert_eq!(blank.base_url(), "https://hanami.yorunoken.com");
}

#[test]
fn authorization_url_carries_the_pkce_parameters() {
    let config = AuthConfig::from_override(Some("https://example.test".into()), true);
    let url = config
        .authorization_url("http://127.0.0.1:5000/callback", "state 1", "challenge", "My PC", "linux")
        .expect("valid url");
    assert_eq!(
        url,
        "https://example.test/oauth/authorize?response_type=code&client_id=hanami-companion&redirect_uri=http%3A%2F%2F127.0.0.1%3A5000%2Fcallback&state=state+1&code_challenge=challenge&code_challenge_method=S256&device_name=My+PC&platform=linux"
    );
    let broken = AuthConfig::from_override(Some("not a url".into()), true);
    assert_eq!(
        broken.authorization_url("r", "s", "c", "d", "p"),
        Err(AuthClientError::InvalidUrl)
    );
}

#[test]
fn credential_store_results_are_mapped() {
    assert_eq!(loaded_token(Ok("t".into())), Ok(Some("t".to_string())));
    assert_eq!(loaded_token(Err(KeyringFailure::NoEntry)), Ok(None));
    assert_eq!(
        loaded_token(Err(KeyringFailure::Other("locked".into()))),
        Err(TokenStoreError::Unavailable("locked".into()))
    );
    assert_eq!(deleted_token(Ok(())), Ok(()));
    assert_eq!(deleted_token(Err(KeyringFailure::NoEntry)), Ok(()));
    assert_eq!(
        deleted_token(Err(KeyringFailure::Other("x".into()))),
        Err(TokenStoreError::Unavailable("x".into()))
    );
}
