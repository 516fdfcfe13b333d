use hanami_companion::tosu::config::{keyed_background, TosuEndpoint, DEFAULT_TOSU_PORT};

#[test]
fn generates_all_endpoint_urls_from_one_port() {
    let endpoint = TosuEndpoint::new(24_051);

    assert_eq!(endpoint.socket_address(), "127.0.0.1:24051");
    assert_eq!(
        endpoint.websocket_url().as_deref(),
        Some("ws://127.0.0.1:24051/websocket/v2")
    );
    assert_eq!(endpoint.dashboard_url().as_deref(), Some("http://127.0.0.1:24051/"));
    assert_eq!(
        endpoint.background_url("abc 123").as_deref(),
        Some("http://127.0.0.1:24051/files/beatmap/background?v=abc+123")
    );
}

#[test]
fn rejects_zero_as_a_persisted_port() {
    assert_eq!(TosuEndpoint::new(0).port(), DEFAULT_TOSU_PORT);
}

#[test]
fn background_url_without_a_cache_key_has_no_query() {
    assert_eq!(
        TosuEndpoint::new(24_050).background_url("").as_deref(),
        Some("http://127.0.0.1:24050/files/beatmap/background")
    );
}

#[test]
fn a_background_address_is_keyed_only_by_a_nonempty_key() {
    let joined = "http://127.0.0.1:24050/files/beatmap/background".to_string();
    assert_eq!(keyed_background(joined.clone(), ""), Some(joined.clone()));
    assert_eq!(
        keyed_background(joined, "a&b").as_deref(),
        Some("http://127.0.0.1:24050/files/beatmap/background?v=a%26b")
    );
}
