//! The Hanami OAuth client: configuration, token responses and the
//! authorization address.
use vstd::prelude::*;

use crate::text::{
    chars_of, eq_ignore_case, str_eq_ignore_case, str_equal, string_of,
    string_of_range, trim, trim_bounds,
};
use crate::web_address::{add_query_pairs, pairs_view, url_with_query_pairs};

verus! {

/// The OAuth client id of Companion.
pub open spec fn client_id() -> Seq<char> {
    "hanami-companion"@
}

/// The Hanami instance used by release builds.
pub open spec fn production_base() -> Seq<char> {
    "https://hanami.yorunoken.com"@
}

/// The Hanami instance used by debug builds.
pub open spec fn development_base() -> Seq<char> {
    "http://localhost:3000"@
}

/// `s` without trailing slashes (`str::trim_end_matches('/')`).
pub open spec fn without_trailing_slashes(s: Seq<char>) -> Seq<char>
    decreases s.len(),
{
    if s.len() > 0 && s.last() == '/' {
        without_trailing_slashes(s.drop_last())
    } else {
        s
    }
}

/// The base address of the Hanami instance: the override where it is not
/// blank, else the default of the build, without trailing slashes.
pub open spec fn configured_base(override_url: Option<String>, release_build: bool) -> Seq<char> {
    let chosen = if override_url is Some && trim(override_url->0@).len() > 0 {
        override_url->0@
    } else if release_build {
        production_base()
    } else {
        development_base()
    };
    without_trailing_slashes(chosen)
}

/// Which Hanami instance Companion talks to.
#[derive(Clone, Debug)]
pub struct AuthConfig {
    base_url: String,
}

impl AuthConfig {
    pub closed spec fn spec_base_url(&self) -> Seq<char> {
        self.base_url@
    }

    /// The configuration for the value of the `HANAMI_BASE_URL` override, if
    /// set, in a release or a debug build.
    pub fn from_override(override_url: Option<String>, release_build: bool) -> (r: Self)
        ensures
            r.spec_base_url() == configured_base(override_url, release_build),
    {
        let chosen = match override_url {
            Some(value) => {
                let v = chars_of(value.as_str());
                let (a, b) = trim_bounds(&v);
                if a < b {
                    v
                } else if release_build {
                    chars_of("https://hanami.yorunoken.com")
                } else {
                    chars_of("http://localhost:3000")
                }
            },
            None => if release_build {
                chars_of("https://hanami.yorunoken.com")
            } else {
                chars_of("http://localhost:3000")
            },
        };
        let mut end = chosen.len();
        assert(chosen@.subrange(0, chosen@.len() as int) =~= chosen@);
        while end > 0 && chosen[end - 1] == '/'
            invariant
                end <= chosen.len(),
                without_trailing_slashes(chosen@) == without_trailing_slashes(
                    chosen@.subrange(0, end as int),
                ),
            decreases end,
        {
            assert(chosen@.subrange(0, end as int).drop_last() =~= chosen@.subrange(
                0,
                end - 1,
            ));
            end = end - 1;
        }
        assert(chosen@.subrange(0, chosen@.len() as int) =~= chosen@);
        AuthConfig { base_url: string_of_range(&chosen, 0, end) }
    }

    /// The base address of the Hanami instance.
    pub fn base_url(&self) -> (r: &str)
        ensures
            r@ == self.spec_base_url(),
    {
        self.base_url.as_str()
    }

    /// Whether this is the production Hanami instance.
    pub fn is_production(&self) -> (r: bool)
        ensures
            r == (self.spec_base_url() == production_base()),
    {
        str_equal(self.base_url.as_str(), "https://hanami.yorunoken.com")
    }

    /// The browser address that asks Hanami to approve Companion: the
    /// instance's `/oauth/authorize` with the PKCE parameters in its query.
    pub fn authorization_url(
        &self,
        redirect_uri: &str,
        state: &str,
        challenge: &str,
        device_name: &str,
        platform: &str,
    ) -> (r: Result<String, AuthClientError>)
        ensures
            match url_with_query_pairs(
                self.spec_base_url() + "/oauth/authorize"@,
                authorization_pairs(redirect_uri@, state@, challenge@, device_name@, platform@),
            ) {
                Some(u) => r matches Ok(s) && s@ == u,
                None => r == Err::<String, AuthClientError>(AuthClientError::InvalidUrl),
            },
    {
        let mut pairs: Vec<(String, String)> = Vec::new();
        pairs.push((text("response_type"), text("code")));
        pairs.push((text("client_id"), text("hanami-companion")));
        pairs.push((text("redirect_uri"), text(redirect_uri)));
        pairs.push((text("state"), text(state)));
        pairs.push((text("code_challenge"), text(challenge)));
        pairs.push((text("code_challenge_method"), text("S256")));
        pairs.push((text("device_name"), text(device_name)));
        pairs.push((text("platform"), text(platform)));
        assert(pairs_view(pairs@) =~= authorization_pairs(
            redirect_uri@,
            state@,
            challenge@,
            device_name@,
            platform@,
        ));
        let address = chars_of(self.base_url.as_str());
        let suffix = chars_of("/oauth/authorize");
        let address = crate::text::concat_chars(&address, &suffix);
        match add_query_pairs(string_of(&address).as_str(), &pairs) {
            Some(u) => Ok(u),
            None => Err(AuthClientError::InvalidUrl),
        }
    }
}

/// A string holding the characters of `s`.
pub fn text(s: &str) -> (r: String)
    ensures
        r@ == s@,
{
    string_of(&chars_of(s))
}

/// The query of the authorization address, in order.
pub open spec fn authorization_pairs(
    redirect_uri: Seq<char>,
    state: Seq<char>,
    challenge: Seq<char>,
    device_name: Seq<char>,
    platform: Seq<char>,
) -> Seq<(Seq<char>, Seq<char>)> {
    seq![
        ("response_type"@, "code"@),
        ("client_id"@, client_id()),
        ("redirect_uri"@, redirect_uri),
        ("state"@, state),
        ("code_challenge"@, challenge),
        ("code_challenge_method"@, "S256"@),
        ("device_name"@, device_name),
        ("platform"@, platform),
    ]
}

/// Why an OAuth request failed.
#[derive(Clone, Copy, Debug, PartialEq, Eq, Structural)]
pub enum AuthClientError {
    InvalidUrl,
    Network,
    Rejected,
    InvalidResponse,
    MissingRefreshToken,
}

/// An access token and the monotonic time (milliseconds) at which it expires.
#[derive(Clone, Debug)]
pub struct AccessToken {
    pub value: String,
    pub expires_at_ms: u64,
}

/// The body of a successful token response.
#[derive(Clone, Debug)]
pub struct TokenResponse {
    pub access_token: String,
    pub refresh_token: Option<String>,
    pub expires_in: u64,
    pub token_type: Option<String>,
}

/// A token response is usable when it carries an access token, a positive
/// lifetime and, if it names a token type, the type `bearer` in any case.
pub open spec fn usable_token_response(r: TokenResponse) -> bool {
    &&& r.access_token@.len() > 0
    &&& r.expires_in > 0
    &&& (r.token_type matches Some(t) ==> eq_ignore_case(t@, "bearer"@))
}

/// Accepts a decoded token response that is usable.
pub fn validate_token_response(response: TokenResponse) -> (r: Result<TokenResponse, AuthClientError>)
    ensures
        usable_token_response(response) ==> r == Ok::<TokenResponse, AuthClientError>(response),
        !usable_token_response(response) ==> r == Err::<TokenResponse, AuthClientError>(
            AuthClientError::InvalidResponse,
        ),
{
    let bearer = match &response.token_type {
        Some(kind) => str_eq_ignore_case(kind.as_str(), "bearer"),
        None => true,
    };
    if response.access_token.as_str().is_empty() || response.expires_in == 0 || !bearer {
        return Err(AuthClientError::InvalidResponse);
    }
    Ok(response)
}

/// The monotonic time at which a token of lifetime `expires_in` seconds,
/// received at `now_ms`, expires.
pub open spec fn expiry(now_ms: u64, expires_in: u64) -> u64 {
    if now_ms + expires_in * 1000 > u64::MAX {
        u64::MAX
    } else {
        (now_ms + expires_in * 1000) as u64
    }
}

impl TokenResponse {
    /// The access token of this response, received at monotonic time `now_ms`.
    pub fn into_access_token(self, now_ms: u64) -> (r: AccessToken)
        ensures
            r.value == self.access_token,
            r.expires_at_ms == expiry(now_ms, self.expires_in),
    {
        let total: u128 = now_ms as u128 + (self.expires_in as u128) * 1000;
        let expires_at_ms = if total > u64::MAX as u128 {
            u64::MAX
        } else {
            total as u64
        };
        AccessToken { value: self.access_token, expires_at_ms }
    }
}

} // verus!
