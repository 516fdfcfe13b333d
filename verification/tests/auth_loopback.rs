use hanami_companion::auth::loopback::{
    accept_chunk, browser_response, callback_from_address, callback_step, constant_time_eq, parse_callback_request,
    redirect_uri_for, request_head_complete, request_text, CallbackError, CallbackStep,
};

#[test]
fn parses_valid_callback_and_validates_state() {
    let request = "GET /callback?code=secret-code&state=expected HTTP/1.1\r\nHost: 127.0.0.1\r\n\r\n";
    assert_eq!(parse_callback_request(request, "expected"), Ok("secret-code".into()));
    assert_eq!(parse_callback_request(request, "different"), Err(CallbackError::StateMismatch));
}

#[test]
fn rejects_wrong_path_and_access_denied() {
    assert_eq!(
        parse_callback_request("GET /wrong?code=x&state=s HTTP/1.1\r\n\r\n", "s"),
        Err(CallbackError::InvalidPath)
    );
    assert_eq!(
        parse_callback_request("GET /callback?error=access_denied&state=s HTTP/1.1\r\n\r\n", "s"),
        Err(CallbackError::AccessDenied)
    );
}

#[test]
fn malformed_and_incomplete_callbacks_are_refused() {
    assert_eq!(parse_callback_request("", "s"), Err(CallbackError::Malformed));
    assert_eq!(
        parse_callback_request("POST /callback?code=x&state=s HTTP/1.1\r\n\r\n", "s"),
        Err(CallbackError::Malformed)
    );
    assert_eq!(
        parse_callback_request("GET /callback?state=s HTTP/1.1\r\n\r\n", "s"),
        Err(CallbackError::MissingCode)
    );
    assert_eq!(
        parse_callback_request("GET /favicon.ico HTTP/1.1\r\n\r\n", "s"),
        Err(CallbackError::InvalidPath)
    );
}

#[test]
fn constant_time_comparison_compares_all_bytes() {
    assert!(constant_time_eq(b"expected", b"expected"));
    assert!(!constant_time_eq(b"expected", b"expectee"));
    assert!(!constant_time_eq(b"short", b"longer"));
    assert!(constant_time_eq(b"", b""));
}

#[test]
fn redirect_uri_names_the_loopback_port() {
    assert_eq!(redirect_uri_for(43_123), "http://127.0.0.1:43123/callback");
}

#[test]
fn request_heads_are_collected_up_to_a_limit() {
    let mut request = Vec::new();
    assert_eq!(accept_chunk(&mut request, b"GET / HTTP/1.1\r\n", 64), Ok(false));
    assert_eq!(accept_chunk(&mut request, b"\r\n", 64), Ok(true));
    assert!(request_head_complete(&request));
    assert_eq!(accept_chunk(&mut request, b"", 64), Err(CallbackError::Malformed));
    let mut small = b"0123456789".to_vec();
    assert_eq!(accept_chunk(&mut small, b"abc", 12), Err(CallbackError::RequestTooLarge));
    assert_eq!(small.len(), 10);
    assert_eq!(request_text(vec![0xff, 0xfe]), Err(CallbackError::Malformed));
    assert_eq!(request_text(b"GET /".to_vec()), Ok("GET /".to_string()));
}

#[test]
fn callback_steps_finish_or_keep_waiting() {
    assert_eq!(callback_step(Ok("code".into()), false), CallbackStep::Accept("code".into()));
    assert_eq!(callback_step(Err(CallbackError::AccessDenied), false), CallbackStep::Deny);
    assert_eq!(callback_step(Err(CallbackError::TimedOut), true), CallbackStep::GiveUp);
    assert_eq!(callback_step(Err(CallbackError::TimedOut), false), CallbackStep::Reject);
    assert_eq!(callback_step(Err(CallbackError::InvalidPath), true), CallbackStep::Reject);
}

#[test]
fn browser_answers_carry_the_page_length() {
    let ok = browser_response(true);
    assert!(ok.starts_with("HTTP/1.1 200 OK\r\nContent-Type: text/html; charset=utf-8\r\n"));
    let (head, page) = ok.split_once("\r\n\r\n").expect("head and page");
    assert!(head.contains(&format!("Content-Length: {}", page.len())));
    assert!(page.contains("Authorization received"));
    let failed = browser_response(false);
    assert!(failed.starts_with("HTTP/1.1 400 Bad Request\r\n"));
    assert!(failed.contains("Connection was not completed"));
}

fn parts(path: &str, pairs: &[(&str, &str)]) -> Option<(String, Vec<(String, String)>)> {
    Some((path.to_string(), pairs.iter().map(|(k, v)| (k.to_string(), v.to_string())).collect()))
}

#[test]
fn callback_addresses_are_decided_in_order() {
    assert_eq!(callback_from_address(None, "s"), Err(CallbackError::Malformed));
    assert_eq!(
        callback_from_address(parts("/other", &[("state", "s"), ("code", "c")]), "s"),
        Err(CallbackError::InvalidPath)
    );
    assert_eq!(
        callback_from_address(parts("/callback", &[("code", "c")]), "s"),
        Err(CallbackError::StateMismatch)
    );
    assert_eq!(
        callback_from_address(parts("/callback", &[("state", "s"), ("error", "access_denied")]), "s"),
        Err(CallbackError::AccessDenied)
    );
    assert_eq!(
        callback_from_address(parts("/callback", &[("state", "s"), ("code", "")]), "s"),
        Err(CallbackError::MissingCode)
    );
    assert_eq!(
        callback_from_address(parts("/callback", &[("state", "s"), ("error", "other"), ("code", "c")]), "s"),
        Ok("c".to_string())
    );
    assert_eq!(
        callback_from_address(parts("/callback", &[("state", "s"), ("code", "first"), ("code", "second")]), "s"),
        Ok("second".to_string())
    );
}
