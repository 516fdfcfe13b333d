//! Clocks and identifiers that the activity tracker takes from the system.
use vstd::prelude::*;

verus! {

#[verifier::external_type_specification]
#[verifier::external_body]
pub struct ExInstant(std::time::Instant);

/// `std::time::Instant::now`: a point on the monotonic clock. Nothing is
/// claimed about it.
#[verifier::external_body]
pub(crate) fn monotonic_now() -> std::time::Instant {
    std::time::Instant::now()
}

/// `Instant::elapsed`, in whole milliseconds: the monotonic time since
/// `origin`. Nothing is claimed about the value, which depends on the clock.
#[verifier::external_body]
pub(crate) fn millis_since(origin: &std::time::Instant) -> u64 {
    origin.elapsed().as_millis() as u64
}

/// An instant of UTC, to the nanosecond: whole seconds since the Unix epoch
/// (negative before it) and the nanoseconds into that second.
#[derive(Clone, Copy, Debug, PartialEq, Eq, Structural)]
pub struct UtcTime {
    pub seconds: i64,
    pub nanos: u32,
}

/// The instant that seconds and nanoseconds name.
pub open spec fn utc_time(parts: (i64, u32)) -> UtcTime {
    UtcTime { seconds: parts.0, nanos: parts.1 }
}

/// `chrono::Utc::now`, as its seconds since the Unix epoch
/// (`DateTime::timestamp`) and the nanoseconds into that second
/// (`DateTime::timestamp_subsec_nanos`). Nothing is claimed about the value.
#[verifier::external_body]
fn utc_now_parts() -> (i64, u32) {
    let now = chrono::Utc::now();
    (now.timestamp(), now.timestamp_subsec_nanos())
}

/// The current instant of UTC.
pub(crate) fn utc_now() -> UtcTime {
    let (seconds, nanos) = utc_now_parts();
    UtcTime { seconds, nanos }
}

/// Whether `c` is a lower-case hexadecimal digit.
pub open spec fn lower_hex_digit(c: char) -> bool {
    ('0' <= c && c <= '9') || ('a' <= c && c <= 'f')
}

/// Whether `s` is the hyphenated lower-case text of a random (version 4,
/// RFC 4122 variant) UUID: 36 characters, hyphens after the 8th, 12th, 16th
/// and 20th digit, the version digit `4`, and a variant digit from `8` to `b`.
pub open spec fn uuid_v4_text(s: Seq<char>) -> bool {
    &&& s.len() == 36
    &&& forall|i: int|
        0 <= i < 36 ==> if i == 8 || i == 13 || i == 18 || i == 23 {
            #[trigger] s[i] == '-'
        } else {
            lower_hex_digit(s[i])
        }
    &&& s[14] == '4'
    &&& (s[19] == '8' || s[19] == '9' || s[19] == 'a' || s[19] == 'b')
}

/// `uuid::Uuid::new_v4`, in its text form (`Display`, which writes the
/// hyphenated lower-case form). The value is random; the contract claims the
/// form of every outcome: `new_v4` sets the version and variant bits.
#[verifier::external_body]
pub(crate) fn new_attempt_id() -> (id: String)
    ensures
        uuid_v4_text(id@),
{
    uuid::Uuid::new_v4().to_string()
}

/// The instant that an RFC 3339 timestamp names, as seconds since the Unix
/// epoch and nanoseconds into that second, if the text is a valid RFC 3339
/// timestamp.
pub uninterp spec fn rfc3339_instant(text: Seq<char>) -> Option<(i64, u32)>;

/// `chrono::DateTime::parse_from_rfc3339`, then `timestamp` and
/// `timestamp_subsec_nanos`. The contract only names the result.
#[verifier::external_body]
fn rfc3339_parts(text: &str) -> (r: Option<(i64, u32)>)
    ensures
        r == rfc3339_instant(text@),
{
    chrono::DateTime::parse_from_rfc3339(text).ok().map(|t| (t.timestamp(), t.timestamp_subsec_nanos()))
}

/// The instant that an RFC 3339 timestamp names, if the text is one.
pub open spec fn rfc3339_time(text: Seq<char>) -> Option<UtcTime> {
    match rfc3339_instant(text) {
        Some(parts) => Some(utc_time(parts)),
        None => None,
    }
}

/// Reads an RFC 3339 timestamp.
pub(crate) fn parse_rfc3339(text: &str) -> (r: Option<UtcTime>)
    ensures
        r == rfc3339_time(text@),
{
    match rfc3339_parts(text) {
        Some((seconds, nanos)) => Some(UtcTime { seconds, nanos }),
        None => None,
    }
}

} // verus!
