//! The loopback OAuth callback: reading the browser's request, checking it,
//! and answering it.
use vstd::prelude::*;

use crate::text::{chars_equal, chars_of, concat_chars, decimal, decimal_chars, is_space, space, string_of, string_of_range};
use crate::web_address::{pairs_view, path_and_query, url_path_and_query};

verus! {

/// Why the OAuth callback did not yield an authorization code.
#[derive(Clone, Debug, PartialEq, Eq)]
pub enum CallbackError {
    TimedOut,
    InvalidPath,
    StateMismatch,
    AccessDenied,
    MissingCode,
    Malformed,
    RequestTooLarge,
    Io(String),
}

/// The end of the line that starts at `i`: the first newline at or after `i`,
/// or the end of `s`.
pub open spec fn line_end(s: Seq<char>, i: int) -> int
    decreases s.len() - i,
{
    if 0 <= i < s.len() && s[i] != '\n' {
        line_end(s, i + 1)
    } else {
        i
    }
}

/// The first line of a text, without its line ending (`str::lines().next()`):
/// none for empty text; a carriage return before the newline is dropped.
pub open spec fn first_line(s: Seq<char>) -> Option<Seq<char>> {
    if s.len() == 0 {
        None
    } else {
        let e = line_end(s, 0);
        let line = s.subrange(0, e);
        if e < s.len() && line.len() > 0 && line.last() == '\r' {
            Some(line.drop_last())
        } else {
            Some(line)
        }
    }
}

/// The first position at or after `i` that holds no white space.
pub open spec fn skip_space(s: Seq<char>, i: int) -> int
    decreases s.len() - i,
{
    if 0 <= i < s.len() && is_space(s[i]) {
        skip_space(s, i + 1)
    } else {
        i
    }
}

/// The first position at or after `i` that holds white space.
pub open spec fn word_end(s: Seq<char>, i: int) -> int
    decreases s.len() - i,
{
    if 0 <= i < s.len() && !is_space(s[i]) {
        word_end(s, i + 1)
    } else {
        i
    }
}

/// The first two words of a line (`str::split_whitespace`).
pub open spec fn first_words(line: Seq<char>) -> (Option<Seq<char>>, Option<Seq<char>>) {
    let a0 = skip_space(line, 0);
    if a0 >= line.len() {
        (None, None)
    } else {
        let b0 = word_end(line, a0);
        let a1 = skip_space(line, b0);
        if a1 >= line.len() {
            (Some(line.subrange(a0, b0)), None)
        } else {
            (Some(line.subrange(a0, b0)), Some(line.subrange(a1, word_end(line, a1))))
        }
    }
}

/// The value of `key` in a query, the last one where it occurs more than once.
pub open spec fn query_value(q: Seq<(Seq<char>, Seq<char>)>, key: Seq<char>) -> Option<Seq<char>>
    decreases q.len(),
{
    if q.len() == 0 {
        None
    } else if q.last().0 == key {
        Some(q.last().1)
    } else {
        query_value(q.drop_last(), key)
    }
}

/// The outcome of a callback request from the path and query of its target
/// (none where the target is no URL): only `/callback` is served, its
/// `state` must match, a denial ends the flow, and a non-empty `code` is
/// the result.
pub open spec fn callback_decision(
    parts: Option<(Seq<char>, Seq<(Seq<char>, Seq<char>)>)>,
    expected_state: Seq<char>,
) -> Result<Seq<char>, CallbackError> {
    match parts {
        None => Err(CallbackError::Malformed),
        Some((path, query)) => if path != "/callback"@ {
            Err(CallbackError::InvalidPath)
        } else if query_value(query, "state"@) != Some(expected_state) {
            Err(CallbackError::StateMismatch)
        } else if query_value(query, "error"@) == Some("access_denied"@) {
            Err(CallbackError::AccessDenied)
        } else if query_value(query, "code"@) matches Some(c) && c.len() > 0 {
            Ok(query_value(query, "code"@)->0)
        } else {
            Err(CallbackError::MissingCode)
        },
    }
}

/// The view of a URL's path and query pairs.
pub open spec fn parts_view(parts: Option<(String, Vec<(String, String)>)>) -> Option<
    (Seq<char>, Seq<(Seq<char>, Seq<char>)>),
> {
    match parts {
        None => None,
        Some((path, query)) => Some((path@, pairs_view(query@))),
    }
}

/// The outcome of one callback request: a `GET` of `/callback` whose `state`
/// matches yields its non-empty `code`, unless it reports that access was denied.
pub open spec fn callback_outcome(request: Seq<char>, expected_state: Seq<char>) -> Result<
    Seq<char>,
    CallbackError,
> {
    match first_line(request) {
        None => Err(CallbackError::Malformed),
        Some(line) => {
            let (method, target) = first_words(line);
            if method != Some("GET"@) || target is None {
                Err(CallbackError::Malformed)
            } else {
                callback_decision(url_path_and_query("http://127.0.0.1"@ + target->0), expected_state)
            }
        },
    }
}

/// A callback yields a code only for a `GET` of `/callback` that carries the
/// expected `state` and a non-empty `code`, and no denial of access: a
/// request forged without the state of this sign-in never yields a code.
pub proof fn lemma_accepted_callbacks_carry_the_expected_state(
    request: Seq<char>,
    expected_state: Seq<char>,
)
    ensures
        callback_outcome(request, expected_state) matches Ok(code) ==> {
            &&& first_line(request) matches Some(line)
            &&& first_words(line).0 == Some("GET"@)
            &&& first_words(line).1 matches Some(target)
            &&& url_path_and_query("http://127.0.0.1"@ + target) matches Some((path, query))
            &&& path == "/callback"@
            &&& query_value(query, "state"@) == Some(expected_state)
            &&& query_value(query, "error"@) != Some("access_denied"@)
            &&& query_value(query, "code"@) == Some(code)
            &&& code.len() > 0
        },
{
}

fn first_line_of(v: &Vec<char>) -> (r: Option<(usize, usize)>)
    ensures
        match r {
            Some((a, b)) => a == 0 && a <= b <= v.len() && first_line(v@) == Some(
                v@.subrange(a as int, b as int),
            ),
            None => first_line(v@) is None,
        },
{
    if v.len() == 0 {
        return None;
    }
    let mut e: usize = 0;
    while e < v.len() && v[e] != '\n'
        invariant
            e <= v.len(),
            line_end(v@, 0) == line_end(v@, e as int),
        decreases v.len() - e,
    {
        e = e + 1;
    }
    if e < v.len() && e > 0 && v[e - 1] == '\r' {
        assert(v@.subrange(0, e as int).drop_last() =~= v@.subrange(0, e - 1));
        Some((0, e - 1))
    } else {
        Some((0, e))
    }
}

pub(crate) fn skip_spaces(v: &Vec<char>, from: usize, to: usize) -> (r: usize)
    requires
        from <= to <= v.len(),
    ensures
        from <= r <= to,
        skip_space(v@.subrange(0, to as int), from as int) == r as int,
{
    let ghost line = v@.subrange(0, to as int);
    let mut i = from;
    while i < to && space(v[i])
        invariant
            from <= i <= to <= v.len(),
            line == v@.subrange(0, to as int),
            skip_space(line, from as int) == skip_space(line, i as int),
        decreases to - i,
    {
        i = i + 1;
    }
    i
}

pub(crate) fn word_ends(v: &Vec<char>, from: usize, to: usize) -> (r: usize)
    requires
        from <= to <= v.len(),
    ensures
        from <= r <= to,
        word_end(v@.subrange(0, to as int), from as int) == r as int,
{
    let ghost line = v@.subrange(0, to as int);
    let mut i = from;
    while i < to && !space(v[i])
        invariant
            from <= i <= to <= v.len(),
            line == v@.subrange(0, to as int),
            word_end(line, from as int) == word_end(line, i as int),
        decreases to - i,
    {
        i = i + 1;
    }
    i
}

fn lookup(q: &Vec<(String, String)>, key: &str) -> (r: Option<String>)
    ensures
        match r {
            Some(s) => query_value(pairs_view(q@), key@) == Some(s@),
            None => query_value(pairs_view(q@), key@) is None,
        },
{
    let ghost qv = pairs_view(q@);
    let k = chars_of(key);
    let mut found: Option<String> = None;
    let mut i: usize = 0;
    while i < q.len()
        invariant
            i <= q.len(),
            qv == pairs_view(q@),
            k@ == key@,
            match found {
                Some(s) => query_value(qv.take(i as int), key@) == Some(s@),
                None => query_value(qv.take(i as int), key@) is None,
            },
        decreases q.len() - i,
    {
        assert(qv.take(i + 1).drop_last() =~= qv.take(i as int));
        assert(qv.take(i + 1).last() == (q@[i as int].0@, q@[i as int].1@));
        let name = chars_of(q[i].0.as_str());
        let same = chars_equal(&name, &k);
        assert(name@ == q@[i as int].0@);
        assert(same == (q@[i as int].0@ == key@));
        assert(qv.take(i + 1).len() > 0);
        if same {
            let value = q[i].1.clone();
            assert(value@ == q@[i as int].1@);
            assert(query_value(qv.take(i + 1), key@) == Some(value@));
            found = Some(value);
        } else {
            assert(query_value(qv.take(i + 1), key@) == query_value(qv.take(i as int), key@));
        }
        i = i + 1;
    }
    assert(qv.take(qv.len() as int) =~= qv);
    found
}

/// Checks one browser request to the loopback listener and yields its
/// authorization code.
pub fn parse_callback_request(request: &str, expected_state: &str) -> (r: Result<String, CallbackError>)
    ensures
        match callback_outcome(request@, expected_state@) {
            Ok(code) => r matches Ok(s) && s@ == code,
            Err(e) => r == Err::<String, CallbackError>(e),
        },
{
    let v = chars_of(request);
    let (a, b) = match first_line_of(&v) {
        Some(bounds) => bounds,
        None => {
            return Err(CallbackError::Malformed);
        },
    };
    assert(a == 0);
    let ghost line = v@.subrange(0, b as int);
    let a0 = skip_spaces(&v, 0, b);
    if a0 >= b {
        return Err(CallbackError::Malformed);
    }
    let b0 = word_ends(&v, a0, b);
    let method = string_of_range(&v, a0, b0);
    assert(v@.subrange(a0 as int, b0 as int) =~= line.subrange(a0 as int, b0 as int));
    if !chars_equal(&chars_of(method.as_str()), &chars_of("GET")) {
        return Err(CallbackError::Malformed);
    }
    let a1 = skip_spaces(&v, b0, b);
    if a1 >= b {
        return Err(CallbackError::Malformed);
    }
    let b1 = word_ends(&v, a1, b);
    assert(v@.subrange(a1 as int, b1 as int) =~= line.subrange(a1 as int, b1 as int));
    let target = string_of_range(&v, a1, b1);
    let address = string_of(&concat_chars(&chars_of("http://127.0.0.1"), &chars_of(target.as_str())));
    callback_from_address(path_and_query(address.as_str()), expected_state)
}

/// The outcome of a callback request from the path and query pairs of its
/// target, as the `url` crate reads them (none where it is no URL).
pub fn callback_from_address(
    parts: Option<(String, Vec<(String, String)>)>,
    expected_state: &str,
) -> (r: Result<String, CallbackError>)
    ensures
        match callback_decision(parts_view(parts), expected_state@) {
            Ok(code) => r matches Ok(s) && s@ == code,
            Err(e) => r == Err::<String, CallbackError>(e),
        },
{
    let (path, query) = match parts {
        Some(parts) => parts,
        None => {
            return Err(CallbackError::Malformed);
        },
    };
    if !chars_equal(&chars_of(path.as_str()), &chars_of("/callback")) {
        return Err(CallbackError::InvalidPath);
    }
    let state_ok = match lookup(&query, "state") {
        Some(received) => {
            let same = constant_time_eq(received.as_str().as_bytes(), expected_state.as_bytes());
            proof {
                lemma_same_bytes_same_text(received@, expected_state@);
            }
            same
        },
        None => false,
    };
    if !state_ok {
        return Err(CallbackError::StateMismatch);
    }
    match lookup(&query, "error") {
        Some(error) => {
            if chars_equal(&chars_of(error.as_str()), &chars_of("access_denied")) {
                return Err(CallbackError::AccessDenied);
            }
        },
        None => {},
    }
    match lookup(&query, "code") {
        Some(code) => if code.as_str().is_empty() {
            Err(CallbackError::MissingCode)
        } else {
            Ok(code)
        },
        None => Err(CallbackError::MissingCode),
    }
}

/// Texts are equal exactly when their UTF-8 encodings are.
pub proof fn lemma_same_bytes_same_text(a: Seq<char>, b: Seq<char>)
    ensures
        (vstd::utf8::encode_utf8(a) == vstd::utf8::encode_utf8(b)) == (a == b),
{
    vstd::utf8::encode_utf8_decode_utf8(a);
    vstd::utf8::encode_utf8_decode_utf8(b);
}

/// Compares two byte strings in time that depends only on their lengths.
pub fn constant_time_eq(left: &[u8], right: &[u8]) -> (r: bool)
    ensures
        r == (left@ == right@),
{
    let ll = left.len();
    let rl = right.len();
    let mut difference: usize = ll ^ rl;
    assert((ll ^ rl) == 0usize <==> ll == rl) by (bit_vector);
    let compared = if left.len() >= right.len() {
        left.len()
    } else {
        right.len()
    };
    let mut index: usize = 0;
    while index < compared
        invariant
            index <= compared,
            compared == if left.len() >= right.len() {
                left.len()
            } else {
                right.len()
            },
            (difference == 0) == (left.len() == right.len() && forall|k: int|
                0 <= k < index ==> left@[k] == right@[k]),
        decreases compared - index,
    {
        let l: u8 = if index < left.len() {
            left[index]
        } else {
            0
        };
        let r: u8 = if index < right.len() {
            right[index]
        } else {
            0
        };
        let x: u8 = l ^ r;
        assert((l ^ r) == 0u8 <==> l == r) by (bit_vector);
        let before = difference;
        difference = difference | (x as usize);
        assert((before | (x as usize)) == 0usize <==> (before == 0usize && x == 0u8)) by (bit_vector);
        index = index + 1;
    }
    let same = difference == 0;
    if same {
        assert(left@ =~= right@);
    }
    same
}

/// The redirect address of a loopback listener on `port`.
pub open spec fn redirect_text(port: u16) -> Seq<char> {
    "http://127.0.0.1:"@ + decimal(port as nat) + "/callback"@
}

/// The redirect address that Hanami sends the browser back to.
pub fn redirect_uri_for(port: u16) -> (r: String)
    ensures
        r@ == redirect_text(port),
{
    let head = concat_chars(&chars_of("http://127.0.0.1:"), &decimal_chars(port as u64));
    string_of(&concat_chars(&head, &chars_of("/callback")))
}

/// Whether the bytes hold the blank line that ends an HTTP request head.
pub open spec fn has_head_end(bytes: Seq<u8>) -> bool {
    exists|i: int| 0 <= i && i + 4 <= bytes.len() && #[trigger] bytes.subrange(i, i + 4) == seq![
        13u8,
        10u8,
        13u8,
        10u8,
    ]
}

fn head_end_at(bytes: &Vec<u8>, i: usize) -> (r: bool)
    requires
        i + 4 <= bytes.len(),
    ensures
        r == (bytes@.subrange(i as int, i + 4) == seq![13u8, 10u8, 13u8, 10u8]),
{
    let r = bytes[i] == 13 && bytes[i + 1] == 10 && bytes[i + 2] == 13 && bytes[i + 3] == 10;
    if r {
        assert(bytes@.subrange(i as int, i + 4) =~= seq![13u8, 10u8, 13u8, 10u8]);
    } else {
        proof {
            let w = bytes@.subrange(i as int, i + 4);
            assert(w[0] == bytes@[i as int]);
            assert(w[1] == bytes@[i + 1]);
            assert(w[2] == bytes@[i + 2]);
            assert(w[3] == bytes@[i + 3]);
            if w == seq![13u8, 10u8, 13u8, 10u8] {
                assert(w[0] == 13u8 && w[1] == 10u8 && w[2] == 13u8 && w[3] == 10u8);
            }
        }
    }
    r
}

/// Whether a request head is complete.
pub fn request_head_complete(bytes: &Vec<u8>) -> (r: bool)
    ensures
        r == has_head_end(bytes@),
{
    if bytes.len() < 4 {
        return false;
    }
    let mut i: usize = 0;
    while i <= bytes.len() - 4
        invariant
            bytes.len() >= 4,
            i <= bytes.len() - 3,
            forall|k: int|
                0 <= k < i ==> #[trigger] bytes@.subrange(k, k + 4) != seq![13u8, 10u8, 13u8, 10u8],
        decreases bytes.len() - i,
    {
        if head_end_at(bytes, i) {
            return true;
        }
        i = i + 1;
    }
    false
}

/// Adds bytes read from the browser to the request; yields whether the
/// request head is complete. An empty read means the browser closed the
/// connection early; a request longer than `max_bytes` is refused.
pub fn accept_chunk(request: &mut Vec<u8>, chunk: &[u8], max_bytes: usize) -> (r: Result<
    bool,
    CallbackError,
>)
    ensures
        chunk@.len() == 0 ==> r == Err::<bool, CallbackError>(CallbackError::Malformed)
            && final(request)@ == old(request)@,
        chunk@.len() > 0 && old(request)@.len() + chunk@.len() > max_bytes ==> r == Err::<
            bool,
            CallbackError,
        >(CallbackError::RequestTooLarge) && final(request)@ == old(request)@,
        chunk@.len() > 0 && old(request)@.len() + chunk@.len() <= max_bytes ==> final(request)@
            == old(request)@ + chunk@ && r == Ok::<bool, CallbackError>(
            has_head_end(final(request)@),
        ),
{
    if chunk.len() == 0 {
        return Err(CallbackError::Malformed);
    }
    if request.len() as u128 + chunk.len() as u128 > max_bytes as u128 {
        return Err(CallbackError::RequestTooLarge);
    }
    let mut i: usize = 0;
    while i < chunk.len()
        invariant
            i <= chunk@.len(),
            request@ == old(request)@ + chunk@.take(i as int),
        decreases chunk@.len() - i,
    {
        request.push(chunk[i]);
        i = i + 1;
        assert(request@ =~= old(request)@ + chunk@.take(i as int));
    }
    assert(chunk@.take(chunk@.len() as int) =~= chunk@);
    Ok(request_head_complete(request))
}

/// `String::from_utf8`: the text that the bytes encode, if they are valid UTF-8.
#[verifier::external_body]
fn utf8_text(bytes: Vec<u8>) -> (r: Option<String>)
    ensures
        r is Some == vstd::utf8::valid_utf8(bytes@),
        r matches Some(s) ==> s@ == vstd::utf8::decode_utf8(bytes@),
{
    String::from_utf8(bytes).ok()
}

/// The text of a complete request head; bytes that are not UTF-8 are malformed.
pub fn request_text(bytes: Vec<u8>) -> (r: Result<String, CallbackError>)
    ensures
        match r {
            Ok(s) => vstd::utf8::valid_utf8(bytes@) && s@ == vstd::utf8::decode_utf8(bytes@),
            Err(e) => !vstd::utf8::valid_utf8(bytes@) && e == CallbackError::Malformed,
        },
{
    let ghost b = bytes@;
    match utf8_text(bytes) {
        Some(s) => Ok(s),
        None => Err(CallbackError::Malformed),
    }
}

/// What the listener does with one browser request.
#[derive(Clone, Debug, PartialEq, Eq)]
pub enum CallbackStep {
    /// Answer with success and finish with the code.
    Accept(String),
    /// Answer with failure and finish: the user denied access.
    Deny,
    /// Finish without answering: the time is up.
    GiveUp,
    /// Answer with failure and wait for the next request.
    Reject,
}

/// The listener's decision on a checked request, `deadline_passed` telling
/// whether the overall time is up.
pub fn callback_step(parsed: Result<String, CallbackError>, deadline_passed: bool) -> (r: CallbackStep)
    ensures
        match parsed {
            Ok(code) => r == CallbackStep::Accept(code),
            Err(CallbackError::AccessDenied) => r == CallbackStep::Deny,
            Err(CallbackError::TimedOut) => r == if deadline_passed {
                CallbackStep::GiveUp
            } else {
                CallbackStep::Reject
            },
            Err(_) => r == CallbackStep::Reject,
        },
{
    match parsed {
        Ok(code) => CallbackStep::Accept(code),
        Err(CallbackError::AccessDenied) => CallbackStep::Deny,
        Err(CallbackError::TimedOut) => if deadline_passed {
            CallbackStep::GiveUp
        } else {
            CallbackStep::Reject
        },
        Err(_) => CallbackStep::Reject,
    }
}

/// The page shown after a successful callback.
pub open spec fn success_page() -> Seq<char> {
    "<!doctype html><html><head><meta charset=\"utf-8\"><title>Authorization received</title></head><body style=\"font-family:system-ui;background:#0b0b0d;color:#f4f4f5;padding:48px\"><h1>Authorization received</h1><p>Return to Hanami Companion while it completes sign-in.</p></body></html>"@
}

/// The page shown after a failed callback.
pub open spec fn failure_page() -> Seq<char> {
    "<!doctype html><html><head><meta charset=\"utf-8\"><title>Connection was not completed</title></head><body style=\"font-family:system-ui;background:#0b0b0d;color:#f4f4f5;padding:48px\"><h1>Connection was not completed</h1><p>Return to Hanami Companion for details.</p></body></html>"@
}

/// The headers of the browser answer after the status line, up to the length.
pub open spec fn answer_headers() -> Seq<char> {
    "\r\nContent-Type: text/html; charset=utf-8\r\nCache-Control: no-store\r\nX-Content-Type-Options: nosniff\r\nContent-Security-Policy: default-src 'none'; style-src 'unsafe-inline'; base-uri 'none'; form-action 'none'; frame-ancestors 'none'\r\nContent-Length: "@
}

/// The HTTP answer to the browser: a status, strict headers, the length of the
/// page in bytes, and the page.
pub open spec fn browser_answer(success: bool) -> Seq<char> {
    let (status, page) = if success {
        ("200 OK"@, success_page())
    } else {
        ("400 Bad Request"@, failure_page())
    };
    "HTTP/1.1 "@ + status + answer_headers() + decimal((vstd::utf8::encode_utf8(page).len() as usize) as nat)
        + "\r\nConnection: close\r\n\r\n"@ + page
}

fn answer(status: &str, page: &str) -> (r: String)
    ensures
        r@ == "HTTP/1.1 "@ + status@ + answer_headers() + decimal(
            (vstd::utf8::encode_utf8(page@).len() as usize) as nat,
        ) + "\r\nConnection: close\r\n\r\n"@ + page@,
{
    let length = page.len();
    let mut text = chars_of("HTTP/1.1 ");
    text = concat_chars(&text, &chars_of(status));
    text = concat_chars(&text, &chars_of("\r\nContent-Type: text/html; charset=utf-8\r\nCache-Control: no-store\r\nX-Content-Type-Options: nosniff\r\nContent-Security-Policy: default-src 'none'; style-src 'unsafe-inline'; base-uri 'none'; form-action 'none'; frame-ancestors 'none'\r\nContent-Length: "));
    text = concat_chars(&text, &decimal_chars(length as u64));
    text = concat_chars(&text, &chars_of("\r\nConnection: close\r\n\r\n"));
    text = concat_chars(&text, &chars_of(page));
    string_of(&text)
}

/// The HTTP answer sent to the browser after a callback request.
pub fn browser_response(success: bool) -> (r: String)
    ensures
        r@ == browser_answer(success),
{
    if success {
        answer("200 OK", "<!doctype html><html><head><meta charset=\"utf-8\"><title>Authorization received</title></head><body style=\"font-family:system-ui;background:#0b0b0d;color:#f4f4f5;padding:48px\"><h1>Authorization received</h1><p>Return to Hanami Companion while it completes sign-in.</p></body></html>")
    } else {
        answer("400 Bad Request", "<!doctype html><html><head><meta charset=\"utf-8\"><title>Connection was not completed</title></head><body style=\"font-family:system-ui;background:#0b0b0d;color:#f4f4f5;padding:48px\"><h1>Connection was not completed</h1><p>Return to Hanami Companion for details.</p></body></html>")
    }
}

} // verus!
