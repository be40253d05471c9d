//! The optional parameters that a call may carry.
//!
//! Every field is optional, and an absent field is never applied: it does
//! not stand for a zero value.

use vstd::prelude::*;

verus! {

/// Optional parameters of a reading call.
#[derive(Clone, Debug)]
pub struct QueryOptions {
    /// Region to send the request to, in place of the client default.
    pub region: Option<String>,
    /// Namespace the request targets.
    pub namespace: Option<String>,
    /// Whether any server, not only the leader, may answer.
    pub allow_stale: Option<bool>,
    /// Index a blocking query waits to pass.
    pub wait_index: Option<u64>,
    /// How long a blocking query may wait.
    pub wait_time: Option<u64>,
    /// Prefix the listed identifiers must start with.
    pub prefix: Option<String>,
    /// Further query parameters, appended in the order given.
    pub params: Option<Vec<(String, String)>>,
    /// Further headers, set in the order given: of two entries with the same
    /// name, the later one wins.
    pub headers: Option<Vec<(String, String)>>,
    /// Token that authenticates this call, in place of the client default.
    pub auth_token: Option<String>,
    /// Filter expression the results must satisfy.
    pub filter: Option<String>,
    /// Largest number of results in one page.
    pub per_page: Option<i32>,
    /// Token that continues a paginated listing.
    pub next_token: Option<String>,
    /// Whether results come in reverse order.
    pub reverse: Option<bool>,
}

impl QueryOptions {
    /// Whether no option is present.
    pub open spec fn is_absent(&self) -> bool {
        self.region is None
        && self.namespace is None
        && self.allow_stale is None
        && self.wait_index is None
        && self.wait_time is None
        && self.prefix is None
        && self.params is None
        && self.headers is None
        && self.auth_token is None
        && self.filter is None
        && self.per_page is None
        && self.next_token is None
        && self.reverse is None
    }

    /// Options with every field absent.
    pub fn new() -> (r: Self)
        ensures
            r.is_absent(),
    {
        QueryOptions {
            region: None,
            namespace: None,
            allow_stale: None,
            wait_index: None,
            wait_time: None,
            prefix: None,
            params: None,
            headers: None,
            auth_token: None,
            filter: None,
            per_page: None,
            next_token: None,
            reverse: None,
        }
    }

    /// The options with the `region` option set.
    pub fn with_region(self, region: String) -> (r: Self)
        ensures
            r == (QueryOptions { region: Some(region), ..self }),
    {
        QueryOptions { region: Some(region), ..self }
    }

    /// The options with the `namespace` option set.
    pub fn with_namespace(self, namespace: String) -> (r: Self)
        ensures
            r == (QueryOptions { namespace: Some(namespace), ..self }),
    {
        QueryOptions { namespace: Some(namespace), ..self }
    }

    /// The options with the `allow_stale` option set.
    pub fn with_allow_stale(self, allow_stale: bool) -> (r: Self)
        ensures
            r == (QueryOptions { allow_stale: Some(allow_stale), ..self }),
    {
        QueryOptions { allow_stale: Some(allow_stale), ..self }
    }

    /// The options with the `wait_index` option set.
    pub fn with_wait_index(self, wait_index: u64) -> (r: Self)
        ensures
            r == (QueryOptions { wait_index: Some(wait_index), ..self }),
    {
        QueryOptions { wait_index: Some(wait_index), ..self }
    }

    /// The options with the `wait_time` option set.
    pub fn with_wait_time(self, wait_time: u64) -> (r: Self)
        ensures
            r == (QueryOptions { wait_time: Some(wait_time), ..self }),
    {
        QueryOptions { wait_time: Some(wait_time), ..self }
    }

    /// The options with the `prefix` option set.
    pub fn with_prefix(self, prefix: String) -> (r: Self)
        ensures
            r == (QueryOptions { prefix: Some(prefix), ..self }),
    {
        QueryOptions { prefix: Some(prefix), ..self }
    }

    /// The options with the `params` option set.
    pub fn with_params(self, params: Vec<(String, String)>) -> (r: Self)
        ensures
            r == (QueryOptions { params: Some(params), ..self }),
    {
        QueryOptions { params: Some(params), ..self }
    }

    /// The options with the `headers` option set.
    pub fn with_headers(self, headers: Vec<(String, String)>) -> (r: Self)
        ensures
            r == (QueryOptions { headers: Some(headers), ..self }),
    {
        QueryOptions { headers: Some(headers), ..self }
    }

    /// The options with the `auth_token` option set.
    pub fn with_auth_token(self, auth_token: String) -> (r: Self)
        ensures
            r == (QueryOptions { auth_token: Some(auth_token), ..self }),
    {
        QueryOptions { auth_token: Some(auth_token), ..self }
    }

    /// The options with the `filter` option set.
    pub fn with_filter(self, filter: String) -> (r: Self)
        ensures
            r == (QueryOptions { filter: Some(filter), ..self }),
    {
        QueryOptions { filter: Some(filter), ..self }
    }

    /// The options with the `per_page` option set.
    pub fn with_per_page(self, per_page: i32) -> (r: Self)
        ensures
            r == (QueryOptions { per_page: Some(per_page), ..self }),
    {
        QueryOptions { per_page: Some(per_page), ..self }
    }

    /// The options with the `next_token` option set.
    pub fn with_next_token(self, next_token: String) -> (r: Self)
        ensures
            r == (QueryOptions { next_token: Some(next_token), ..self }),
    {
        QueryOptions { next_token: Some(next_token), ..self }
    }

    /// The options with the `reverse` option set.
    pub fn with_reverse(self, reverse: bool) -> (r: Self)
        ensures
            r == (QueryOptions { reverse: Some(reverse), ..self }),
    {
        QueryOptions { reverse: Some(reverse), ..self }
    }

}

impl Default for QueryOptions {
    fn default() -> (r: Self)
        ensures
            r.is_absent(),
    {
        QueryOptions::new()
    }
}

/// Optional parameters of a writing call.
#[derive(Clone, Debug)]
pub struct WriteOptions {
    /// Region to send the request to, in place of the client default.
    pub region: Option<String>,
    /// Namespace the request targets.
    pub namespace: Option<String>,
    /// Token that authenticates this call, in place of the client default.
    pub auth_token: Option<String>,
    /// Further headers, set in the order given: of two entries with the same
    /// name, the later one wins.
    pub headers: Option<Vec<(String, String)>>,
    /// Token that lets the server recognise a repeated write.
    pub idempotency_token: Option<String>,
}

impl WriteOptions {
    /// Whether no option is present.
    pub open spec fn is_absent(&self) -> bool {
        self.region is None
        && self.namespace is None
        && self.auth_token is None
        && self.headers is None
        && self.idempotency_token is None
    }

    /// Options with every field absent.
    pub fn new() -> (r: Self)
        ensures
            r.is_absent(),
    {
        WriteOptions {
            region: None,
            namespace: None,
            auth_token: None,
            headers: None,
            idempotency_token: None,
        }
    }

    /// The options with the `region` option set.
    pub fn with_region(self, region: String) -> (r: Self)
        ensures
            r == (WriteOptions { region: Some(region), ..self }),
    {
        WriteOptions { region: Some(region), ..self }
    }

    /// The options with the `namespace` option set.
    pub fn with_namespace(self, namespace: String) -> (r: Self)
        ensures
            r == (WriteOptions { namespace: Some(namespace), ..self }),
    {
        WriteOptions { namespace: Some(namespace), ..self }
    }

    /// The options with the `auth_token` option set.
    pub fn with_auth_token(self, auth_token: String) -> (r: Self)
        ensures
            r == (WriteOptions { auth_token: Some(auth_token), ..self }),
    {
        WriteOptions { auth_token: Some(auth_token), ..self }
    }

    /// The options with the `headers` option set.
    pub fn with_headers(self, headers: Vec<(String, String)>) -> (r: Self)
        ensures
            r == (WriteOptions { headers: Some(headers), ..self }),
    {
        WriteOptions { headers: Some(headers), ..self }
    }

    /// The options with the `idempotency_token` option set.
    pub fn with_idempotency_token(self, token: String) -> (r: Self)
        ensures
            r == (WriteOptions { idempotency_token: Some(token), ..self }),
    {
        WriteOptions { idempotency_token: Some(token), ..self }
    }

}

impl Default for WriteOptions {
    fn default() -> (r: Self)
        ensures
            r.is_absent(),
    {
        WriteOptions::new()
    }
}

} // verus!
