//! Client-wide configuration, and the base request every call starts from.

use crate::pairs::{pairs_view, put, with_key};
use crate::request::{token_header, Method, PendingRequest, RequestView};
use vstd::prelude::*;

verus! {

/// Where the server is, the region calls go to by default, and the token
/// that authenticates them by default. It is fixed for a client's life.
#[derive(Clone, Debug)]
pub struct Config {
    /// Base address of the server, such as `http://127.0.0.1:4646`.
    pub address: String,
    /// Region that every request names unless its options name another.
    pub region: String,
    /// Token sent with every request unless its options carry another.
    pub token: Option<String>,
}

/// The headers of a fresh request: the default token, if one is set.
pub open spec fn base_headers(token: Option<String>) -> crate::pairs::Pairs {
    match token {
        Some(t) => with_key(seq![], token_header(), t@, true),
        None => seq![],
    }
}

/// The request that a call starts from: the address followed by the path,
/// the default region as a query parameter, the default token as a header,
/// and no body.
pub open spec fn base_request(c: Config, method: Method, path: Seq<char>) -> RequestView {
    RequestView {
        method: method,
        url: c.address@ + path,
        query: with_key(seq![], "region"@, c.region@, false),
        headers: base_headers(c.token),
        body: None,
    }
}

impl Config {
    /// The configuration from values found in the environment: each value
    /// that is present replaces the corresponding default.
    pub fn from_values(address: Option<String>, region: Option<String>, token: Option<String>) -> (r:
        Config)
        ensures
            r.address@ == match address {
                Some(a) => a@,
                None => "http://127.0.0.1:4646"@,
            },
            r.region@ == match region {
                Some(g) => g@,
                None => "global"@,
            },
            r.token == token,
    {
        let d = Config::default();
        Config {
            address: match address {
                Some(a) => a,
                None => d.address,
            },
            region: match region {
                Some(g) => g,
                None => d.region,
            },
            token: token,
        }
    }

    /// Starts a request for `method` on `path`, with the default region as a
    /// query parameter and the default token, if any, as a header.
    pub fn build_request(&self, method: Method, path: &str) -> (r: PendingRequest)
        ensures
            r@ == base_request(*self, method, path@),
    {
        let url = self.address.clone().concat(path);
        let query = put(Vec::new(), String::from_str("region"), self.region.clone(), false);
        assert(pairs_view(Seq::<(String, String)>::empty()) =~= seq![]);
        let headers = match &self.token {
            Some(t) => put(Vec::new(), String::from_str("X-Nomad-Token"), t.clone(), true),
            None => {
                assert(pairs_view(Seq::<(String, String)>::empty()) =~= seq![]);
                Vec::new()
            },
        };
        PendingRequest { method, url, query, headers, body: None }
    }
}

impl Default for Config {
    /// The configuration a client gets when nothing else is given: the
    /// local agent, the `global` region and no token.
    fn default() -> (r: Config)
        ensures
            r.address@ == "http://127.0.0.1:4646"@,
            r.region@ == "global"@,
            r.token is None,
    {
        Config {
            address: String::from_str("http://127.0.0.1:4646"),
            region: String::from_str("global"),
            token: None,
        }
    }
}

} // verus!
