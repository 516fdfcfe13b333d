//! The loopback address of the local tosu service.
use vstd::prelude::*;

use crate::text::{chars_of, concat_chars, decimal, decimal_chars, string_of};
use crate::web_address::{
    add_query_pairs, join_url, pairs_view, parse_url, url_joined, url_serialization,
    url_with_query_pairs,
};

verus! {

/// The port tosu serves on unless another one is configured.
pub const DEFAULT_TOSU_PORT: u16 = 24050;

/// Where the local tosu service listens: 127.0.0.1 and a port.
#[derive(Clone, Copy, Debug, PartialEq, Eq, Structural)]
pub struct TosuEndpoint {
    port: u16,
}

impl Default for TosuEndpoint {
    fn default() -> (r: Self)
        ensures
            r.spec_port() == DEFAULT_TOSU_PORT,
    {
        TosuEndpoint { port: DEFAULT_TOSU_PORT }
    }
}

/// The text of the tosu socket address for `port`.
pub open spec fn socket_text(port: u16) -> Seq<char> {
    "127.0.0.1:"@ + decimal(port as nat)
}

/// The text of the tosu v2 WebSocket address for `port`.
pub open spec fn websocket_text(port: u16) -> Seq<char> {
    "ws://127.0.0.1:"@ + decimal(port as nat) + "/websocket/v2"@
}

/// The text of the tosu dashboard address for `port`.
pub open spec fn dashboard_text(port: u16) -> Seq<char> {
    "http://127.0.0.1:"@ + decimal(port as nat)
}

/// The beatmap background address for `port`, with the cache key `v` where one is given.
pub open spec fn background_address(port: u16, cache_key: Seq<char>) -> Option<Seq<char>> {
    match url_joined(dashboard_text(port), "/files/beatmap/background"@) {
        Some(joined) => if cache_key.len() == 0 {
            Some(joined)
        } else {
            url_with_query_pairs(joined, seq![("v"@, cache_key)])
        },
        None => None,
    }
}

/// Every address of the tosu service names the one socket address of its
/// port: the dashboard and the WebSocket addresses are that host and port
/// behind their schemes (and the background address is joined onto the
/// dashboard address).
pub proof fn lemma_addresses_share_one_socket(port: u16)
    ensures
        dashboard_text(port) == "http://"@ + socket_text(port),
        websocket_text(port) == "ws://"@ + socket_text(port) + "/websocket/v2"@,
{
    reveal_strlit("http://127.0.0.1:");
    reveal_strlit("http://");
    reveal_strlit("127.0.0.1:");
    reveal_strlit("ws://127.0.0.1:");
    reveal_strlit("ws://");
    assert("http://127.0.0.1:"@ =~= "http://"@ + "127.0.0.1:"@);
    assert("ws://127.0.0.1:"@ =~= "ws://"@ + "127.0.0.1:"@);
    assert(dashboard_text(port) =~= "http://"@ + socket_text(port));
    assert(websocket_text(port) =~= "ws://"@ + socket_text(port) + "/websocket/v2"@);
}

impl TosuEndpoint {
    pub closed spec fn spec_port(&self) -> u16 {
        self.port
    }

    /// The endpoint on `port`; zero, which no service can listen on, selects the default port.
    pub fn new(port: u16) -> (r: Self)
        ensures
            r.spec_port() == if port == 0 {
                DEFAULT_TOSU_PORT
            } else {
                port
            },
    {
        TosuEndpoint { port: if port == 0 { DEFAULT_TOSU_PORT } else { port } }
    }

    /// The port.
    pub fn port(&self) -> (r: u16)
        ensures
            r == self.spec_port(),
    {
        self.port
    }

    fn prefixed_port(&self, prefix: &str) -> (r: Vec<char>)
        ensures
            r@ == prefix@ + decimal(self.port as nat),
    {
        concat_chars(&chars_of(prefix), &decimal_chars(self.port as u64))
    }

    /// The socket address `127.0.0.1:<port>`, as text.
    pub fn socket_address(&self) -> (r: String)
        ensures
            r@ == socket_text(self.spec_port()),
    {
        string_of(&self.prefixed_port("127.0.0.1:"))
    }

    /// The tosu v2 WebSocket URL, as the `url` crate writes it.
    pub fn websocket_url(&self) -> (r: Option<String>)
        ensures
            match r {
                Some(s) => url_serialization(websocket_text(self.spec_port())) == Some(s@),
                None => url_serialization(websocket_text(self.spec_port())) is None,
            },
    {
        let text = string_of(&concat_chars(&self.prefixed_port("ws://127.0.0.1:"), &chars_of("/websocket/v2")));
        parse_url(text.as_str())
    }

    /// The tosu dashboard URL, as the `url` crate writes it.
    pub fn dashboard_url(&self) -> (r: Option<String>)
        ensures
            match r {
                Some(s) => url_serialization(dashboard_text(self.spec_port())) == Some(s@),
                None => url_serialization(dashboard_text(self.spec_port())) is None,
            },
    {
        let text = string_of(&self.prefixed_port("http://127.0.0.1:"));
        parse_url(text.as_str())
    }

    /// The URL of the current beatmap's background, keyed by `cache_key` when it is not empty.
    pub fn background_url(&self, cache_key: &str) -> (r: Option<String>)
        ensures
            match r {
                Some(s) => background_address(self.spec_port(), cache_key@) == Some(s@),
                None => background_address(self.spec_port(), cache_key@) is None,
            },
    {
        let dashboard = string_of(&self.prefixed_port("http://127.0.0.1:"));
        match join_url(dashboard.as_str(), "/files/beatmap/background") {
            Some(joined) => keyed_background(joined, cache_key),
            None => None,
        }
    }
}

/// The background address `joined`, keyed by `cache_key` in the query pair `v`
/// unless the key is empty, in which case it is `joined` itself.
pub fn keyed_background(joined: String, cache_key: &str) -> (r: Option<String>)
    ensures
        cache_key@.len() == 0 ==> r == Some(joined),
        cache_key@.len() > 0 ==> match r {
            Some(s) => url_with_query_pairs(joined@, seq![("v"@, cache_key@)]) == Some(s@),
            None => url_with_query_pairs(joined@, seq![("v"@, cache_key@)]) is None,
        },
{
    if cache_key.is_empty() {
        return Some(joined);
    }
    let mut pairs: Vec<(String, String)> = Vec::new();
    pairs.push((string_of(&chars_of("v")), string_of(&chars_of(cache_key))));
    assert(pairs_view(pairs@) =~= seq![("v"@, cache_key@)]);
    add_query_pairs(joined.as_str(), &pairs)
}

} // verus!
