//! The description of an outgoing call, built up before it is sent.

use crate::option::{QueryOptions, WriteOptions};
use crate::pairs::{
    keys_match, last_value, lemma_values_concat, lemma_values_with_all, lemma_values_with_opt,
    pairs_view, put, values_of, with_all, with_opt, Pairs,
};
use crate::text::{
    bool_str, bool_text, decimal, i64_text, same_name, signed_decimal, u64_text,
};
use vstd::prelude::*;

verus! {

/// The HTTP method of a call.
#[derive(Clone, Copy, Debug, PartialEq, Eq, Structural)]
pub enum Method {
    Get,
    Post,
    Put,
    Delete,
}

/// A call being assembled: method, address, query parameters, headers and
/// body. It belongs to one call and is handed to the transport once.
#[derive(Debug)]
pub struct PendingRequest {
    pub method: Method,
    /// The server address followed by the path.
    pub url: String,
    /// Query parameters, in the order they go on the wire.
    pub query: Vec<(String, String)>,
    /// Headers, in the order they were set.
    pub headers: Vec<(String, String)>,
    /// The encoded body, if the call sends one.
    pub body: Option<Vec<u8>>,
}

/// What a pending request holds, as mathematical values.
pub struct RequestView {
    pub method: Method,
    pub url: Seq<char>,
    pub query: Pairs,
    pub headers: Pairs,
    pub body: Option<Seq<u8>>,
}

impl View for PendingRequest {
    type V = RequestView;

    open spec fn view(&self) -> RequestView {
        RequestView {
            method: self.method,
            url: self.url@,
            query: pairs_view(self.query@),
            headers: pairs_view(self.headers@),
            body: match self.body {
                Some(b) => Some(b@),
                None => None,
            },
        }
    }
}

/// The name of the header that carries the authentication token.
pub open spec fn token_header() -> Seq<char> {
    "X-Nomad-Token"@
}

/// The text of an optional string.
pub open spec fn text_of(o: Option<String>) -> Option<Seq<char>> {
    match o {
        Some(s) => Some(s@),
        None => None,
    }
}

/// The decimal text of an optional unsigned number.
pub open spec fn u64_text_of(o: Option<u64>) -> Option<Seq<char>> {
    match o {
        Some(n) => Some(decimal(n as nat)),
        None => None,
    }
}

/// The decimal text of an optional signed number.
pub open spec fn i32_text_of(o: Option<i32>) -> Option<Seq<char>> {
    match o {
        Some(n) => Some(signed_decimal(n as int)),
        None => None,
    }
}

/// The text of an optional flag.
pub open spec fn bool_text_of(o: Option<bool>) -> Option<Seq<char>> {
    match o {
        Some(b) => Some(bool_text(b)),
        None => None,
    }
}

/// The pairs of an optional list, none when it is absent.
pub open spec fn list_of(o: Option<Vec<(String, String)>>) -> Pairs {
    match o {
        Some(v) => pairs_view(v@),
        None => seq![],
    }
}

/// The query parameters after the named options of a reading call that
/// precede the generic parameters.
pub open spec fn query_head(q: Pairs, o: QueryOptions) -> Pairs {
    let q = with_opt(q, "region"@, text_of(o.region), false);
    let q = with_opt(q, "namespace"@, text_of(o.namespace), false);
    let q = with_opt(q, "allow_stale"@, bool_text_of(o.allow_stale), false);
    let q = with_opt(q, "wait_index"@, u64_text_of(o.wait_index), false);
    let q = with_opt(q, "wait_time"@, u64_text_of(o.wait_time), false);
    with_opt(q, "prefix"@, text_of(o.prefix), false)
}

/// The query parameters of a request after the options of a reading call.
pub open spec fn query_with_query_options(q: Pairs, o: QueryOptions) -> Pairs {
    let q = query_head(q, o) + list_of(o.params);
    let q = with_opt(q, "filter"@, text_of(o.filter), false);
    let q = with_opt(q, "per_page"@, i32_text_of(o.per_page), false);
    let q = with_opt(q, "next_token"@, text_of(o.next_token), false);
    with_opt(q, "reverse"@, bool_text_of(o.reverse), false)
}

/// The headers of a request after the generic headers and the token of an
/// options value.
pub open spec fn headers_with_options(
    h: Pairs,
    headers: Option<Vec<(String, String)>>,
    auth_token: Option<String>,
) -> Pairs {
    with_opt(with_all(h, list_of(headers), true), token_header(), text_of(auth_token), true)
}

/// The query parameters of a request after the options of a writing call.
pub open spec fn query_with_write_options(q: Pairs, o: WriteOptions) -> Pairs {
    let q = with_opt(q, "region"@, text_of(o.region), false);
    let q = with_opt(q, "namespace"@, text_of(o.namespace), false);
    with_opt(q, "idempotency_token"@, text_of(o.idempotency_token), false)
}

/// A request after the options of a reading call.
pub open spec fn with_query_options(r: RequestView, o: QueryOptions) -> RequestView {
    RequestView {
        query: query_with_query_options(r.query, o),
        headers: headers_with_options(r.headers, o.headers, o.auth_token),
        ..r
    }
}

/// A request after the options of a writing call.
pub open spec fn with_write_options(r: RequestView, o: WriteOptions) -> RequestView {
    RequestView {
        query: query_with_write_options(r.query, o),
        headers: headers_with_options(r.headers, o.headers, o.auth_token),
        ..r
    }
}

fn put_text(ps: Vec<(String, String)>, k: &str, v: &Option<String>, caseless: bool) -> (r: Vec<
    (String, String),
>)
    ensures
        pairs_view(r@) == with_opt(pairs_view(ps@), k@, text_of(*v), caseless),
{
    match v {
        Some(s) => put(ps, String::from_str(k), s.clone(), caseless),
        None => ps,
    }
}

fn put_u64(ps: Vec<(String, String)>, k: &str, v: Option<u64>) -> (r: Vec<(String, String)>)
    ensures
        pairs_view(r@) == with_opt(pairs_view(ps@), k@, u64_text_of(v), false),
{
    match v {
        Some(n) => put(ps, String::from_str(k), u64_text(n), false),
        None => ps,
    }
}

fn put_i32(ps: Vec<(String, String)>, k: &str, v: Option<i32>) -> (r: Vec<(String, String)>)
    ensures
        pairs_view(r@) == with_opt(pairs_view(ps@), k@, i32_text_of(v), false),
{
    match v {
        Some(n) => put(ps, String::from_str(k), i64_text(n as i64), false),
        None => ps,
    }
}

fn put_bool(ps: Vec<(String, String)>, k: &str, v: Option<bool>) -> (r: Vec<(String, String)>)
    ensures
        pairs_view(r@) == with_opt(pairs_view(ps@), k@, bool_text_of(v), false),
{
    match v {
        Some(b) => put(ps, String::from_str(k), bool_str(b), false),
        None => ps,
    }
}

/// Sets every pair of `extra`, in order.
fn put_list(ps: Vec<(String, String)>, extra: &Option<Vec<(String, String)>>, caseless: bool) -> (r:
    Vec<(String, String)>)
    ensures
        pairs_view(r@) == with_all(pairs_view(ps@), list_of(*extra), caseless),
{
    match extra {
        None => ps,
        Some(list) => {
            let mut acc = ps;
            let mut i: usize = 0;
            while i < list.len()
                invariant
                    i <= list@.len(),
                    pairs_view(acc@) == with_all(
                        pairs_view(ps@),
                        pairs_view(list@.take(i as int)),
                        caseless,
                    ),
                decreases list@.len() - i,
            {
                assert(pairs_view(list@.take(i + 1)).drop_last() =~= pairs_view(
                    list@.take(i as int),
                ));
                acc = put(acc, list[i].0.clone(), list[i].1.clone(), caseless);
                i = i + 1;
            }
            assert(list@.take(list@.len() as int) =~= list@);
            acc
        },
    }
}

/// Appends every pair of `extra`, in order.
fn append_list(ps: Vec<(String, String)>, extra: &Option<Vec<(String, String)>>) -> (r: Vec<
    (String, String),
>)
    ensures
        pairs_view(r@) == pairs_view(ps@) + list_of(*extra),
{
    match extra {
        None => {
            assert(pairs_view(ps@) + seq![] =~= pairs_view(ps@));
            ps
        },
        Some(list) => {
            let mut acc = ps;
            let mut i: usize = 0;
            while i < list.len()
                invariant
                    i <= list@.len(),
                    pairs_view(acc@) == pairs_view(ps@) + pairs_view(list@.take(i as int)),
                decreases list@.len() - i,
            {
                let ghost before = acc@;
                acc.push((list[i].0.clone(), list[i].1.clone()));
                assert(pairs_view(acc@) =~= pairs_view(before).push(
                    (list@[i as int].0@, list@[i as int].1@),
                ));
                assert(pairs_view(list@.take(i + 1)) =~= pairs_view(list@.take(i as int)).push(
                    (list@[i as int].0@, list@[i as int].1@),
                ));
                i = i + 1;
            }
            assert(list@.take(list@.len() as int) =~= list@);
            acc
        },
    }
}

fn put_headers(
    hs: Vec<(String, String)>,
    headers: &Option<Vec<(String, String)>>,
    auth_token: &Option<String>,
) -> (r: Vec<(String, String)>)
    ensures
        pairs_view(r@) == headers_with_options(pairs_view(hs@), *headers, *auth_token),
{
    let hs = put_list(hs, headers, true);
    put_text(hs, "X-Nomad-Token", auth_token, true)
}

/// Layers the options of a reading call onto a request: region, namespace,
/// staleness, blocking-query index and time, prefix, the generic
/// parameters, the generic headers, the token, then filter, page size,
/// continuation token and order. Absent options add nothing.
pub fn set_request_query_options(req: PendingRequest, opts: &QueryOptions) -> (r: PendingRequest)
    ensures
        r@ == with_query_options(req@, *opts),
{
    let PendingRequest { method, url, query, headers, body } = req;
    let q = put_text(query, "region", &opts.region, false);
    let q = put_text(q, "namespace", &opts.namespace, false);
    let q = put_bool(q, "allow_stale", opts.allow_stale);
    let q = put_u64(q, "wait_index", opts.wait_index);
    let q = put_u64(q, "wait_time", opts.wait_time);
    let q = put_text(q, "prefix", &opts.prefix, false);
    let q = append_list(q, &opts.params);
    let h = put_headers(headers, &opts.headers, &opts.auth_token);
    let q = put_text(q, "filter", &opts.filter, false);
    let q = put_i32(q, "per_page", opts.per_page);
    let q = put_text(q, "next_token", &opts.next_token, false);
    let q = put_bool(q, "reverse", opts.reverse);
    PendingRequest { method, url, query: q, headers: h, body }
}

/// Layers the options of a writing call onto a request: region, namespace,
/// the generic headers, the token, then the idempotency token. Absent
/// options add nothing.
pub fn set_request_write_options(req: PendingRequest, opts: &WriteOptions) -> (r: PendingRequest)
    ensures
        r@ == with_write_options(req@, *opts),
{
    let PendingRequest { method, url, query, headers, body } = req;
    let q = put_text(query, "region", &opts.region, false);
    let q = put_text(q, "namespace", &opts.namespace, false);
    let h = put_headers(headers, &opts.headers, &opts.auth_token);
    let q = put_text(q, "idempotency_token", &opts.idempotency_token, false);
    PendingRequest { method, url, query: q, headers: h, body }
}

/// The option of a reading call that fills the query parameter `k`, or
/// `None` when `k` is not the name of one.
pub open spec fn query_option_for(o: QueryOptions, k: Seq<char>) -> Option<Option<Seq<char>>> {
    if k == "region"@ {
        Some(text_of(o.region))
    } else if k == "namespace"@ {
        Some(text_of(o.namespace))
    } else if k == "allow_stale"@ {
        Some(bool_text_of(o.allow_stale))
    } else if k == "wait_index"@ {
        Some(u64_text_of(o.wait_index))
    } else if k == "wait_time"@ {
        Some(u64_text_of(o.wait_time))
    } else if k == "prefix"@ {
        Some(text_of(o.prefix))
    } else if k == "filter"@ {
        Some(text_of(o.filter))
    } else if k == "per_page"@ {
        Some(i32_text_of(o.per_page))
    } else if k == "next_token"@ {
        Some(text_of(o.next_token))
    } else if k == "reverse"@ {
        Some(bool_text_of(o.reverse))
    } else {
        None
    }
}

/// The option of a writing call that fills the query parameter `k`, or
/// `None` when `k` is not the name of one.
pub open spec fn write_option_for(o: WriteOptions, k: Seq<char>) -> Option<Option<Seq<char>>> {
    if k == "region"@ {
        Some(text_of(o.region))
    } else if k == "namespace"@ {
        Some(text_of(o.namespace))
    } else if k == "idempotency_token"@ {
        Some(text_of(o.idempotency_token))
    } else {
        None
    }
}

/// Whether no pair of a list is named `k`.
pub open spec fn avoids(ps: Pairs, k: Seq<char>) -> bool {
    forall|i: int| 0 <= i < ps.len() ==> !keys_match(#[trigger] ps[i].0, k, false)
}

/// The values of the header `k` after the generic headers and the token of
/// an options value: the token if one is given and `k` names the token
/// header, else the last value that the generic headers give `k`, else
/// what `k` held.
pub open spec fn header_values_after(
    h: Pairs,
    headers: Option<Vec<(String, String)>>,
    auth_token: Option<String>,
    k: Seq<char>,
) -> Seq<Seq<char>> {
    if auth_token is Some && same_name(k, token_header()) {
        seq![auth_token->0@]
    } else {
        match last_value(list_of(headers), k, true) {
            Some(v) => seq![v],
            None => values_of(h, k, true),
        }
    }
}

/// The names of the query options differ from each other.
proof fn lemma_option_names_differ()
    ensures
        "region"@ != "namespace"@,
        "region"@ != "allow_stale"@,
        "region"@ != "wait_index"@,
        "region"@ != "wait_time"@,
        "region"@ != "prefix"@,
        "region"@ != "filter"@,
        "region"@ != "per_page"@,
        "region"@ != "next_token"@,
        "region"@ != "reverse"@,
        "region"@ != "idempotency_token"@,
        "namespace"@ != "allow_stale"@,
        "namespace"@ != "wait_index"@,
        "namespace"@ != "wait_time"@,
        "namespace"@ != "prefix"@,
        "namespace"@ != "filter"@,
        "namespace"@ != "per_page"@,
        "namespace"@ != "next_token"@,
        "namespace"@ != "reverse"@,
        "namespace"@ != "idempotency_token"@,
        "allow_stale"@ != "wait_index"@,
        "allow_stale"@ != "wait_time"@,
        "allow_stale"@ != "prefix"@,
        "allow_stale"@ != "filter"@,
        "allow_stale"@ != "per_page"@,
        "allow_stale"@ != "next_token"@,
        "allow_stale"@ != "reverse"@,
        "allow_stale"@ != "idempotency_token"@,
        "wait_index"@ != "wait_time"@,
        "wait_index"@ != "prefix"@,
        "wait_index"@ != "filter"@,
        "wait_index"@ != "per_page"@,
        "wait_index"@ != "next_token"@,
        "wait_index"@ != "reverse"@,
        "wait_index"@ != "idempotency_token"@,
        "wait_time"@ != "prefix"@,
        "wait_time"@ != "filter"@,
        "wait_time"@ != "per_page"@,
        "wait_time"@ != "next_token"@,
        "wait_time"@ != "reverse"@,
        "wait_time"@ != "idempotency_token"@,
        "prefix"@ != "filter"@,
        "prefix"@ != "per_page"@,
        "prefix"@ != "next_token"@,
        "prefix"@ != "reverse"@,
        "prefix"@ != "idempotency_token"@,
        "filter"@ != "per_page"@,
        "filter"@ != "next_token"@,
        "filter"@ != "reverse"@,
        "filter"@ != "idempotency_token"@,
        "per_page"@ != "next_token"@,
        "per_page"@ != "reverse"@,
        "per_page"@ != "idempotency_token"@,
        "next_token"@ != "reverse"@,
        "next_token"@ != "idempotency_token"@,
        "reverse"@ != "idempotency_token"@,
{
    reveal_strlit("region");
    reveal_strlit("namespace");
    reveal_strlit("allow_stale");
    reveal_strlit("wait_index");
    reveal_strlit("wait_time");
    reveal_strlit("prefix");
    reveal_strlit("filter");
    reveal_strlit("per_page");
    reveal_strlit("next_token");
    reveal_strlit("reverse");
    reveal_strlit("idempotency_token");
    assert("region"@.len() != "namespace"@.len());
    assert("region"@.len() != "allow_stale"@.len());
    assert("region"@.len() != "wait_index"@.len());
    assert("region"@.len() != "wait_time"@.len());
    assert("region"@[0] != "prefix"@[0]);
    assert("region"@[0] != "filter"@[0]);
    assert("region"@.len() != "per_page"@.len());
    assert("region"@.len() != "next_token"@.len());
    assert("region"@.len() != "reverse"@.len());
    assert("region"@.len() != "idempotency_token"@.len());
    assert("namespace"@.len() != "allow_stale"@.len());
    assert("namespace"@.len() != "wait_index"@.len());
    assert("namespace"@[0] != "wait_time"@[0]);
    assert("namespace"@.len() != "prefix"@.len());
    assert("namespace"@.len() != "filter"@.len());
    assert("namespace"@.len() != "per_page"@.len());
    assert("namespace"@.len() != "next_token"@.len());
    assert("namespace"@.len() != "reverse"@.len());
    assert("namespace"@.len() != "idempotency_token"@.len());
    assert("allow_stale"@.len() != "wait_index"@.len());
    assert("allow_stale"@.len() != "wait_time"@.len());
    assert("allow_stale"@.len() != "prefix"@.len());
    assert("allow_stale"@.len() != "filter"@.len());
    assert("allow_stale"@.len() != "per_page"@.len());
    assert("allow_stale"@.len() != "next_token"@.len());
    assert("allow_stale"@.len() != "reverse"@.len());
    assert("allow_stale"@.len() != "idempotency_token"@.len());
    assert("wait_index"@.len() != "wait_time"@.len());
    assert("wait_index"@.len() != "prefix"@.len());
    assert("wait_index"@.len() != "filter"@.len());
    assert("wait_index"@.len() != "per_page"@.len());
    assert("wait_index"@[0] != "next_token"@[0]);
    assert("wait_index"@.len() != "reverse"@.len());
    assert("wait_index"@.len() != "idempotency_token"@.len());
    assert("wait_time"@.len() != "prefix"@.len());
    assert("wait_time"@.len() != "filter"@.len());
    assert("wait_time"@.len() != "per_page"@.len());
    assert("wait_time"@.len() != "next_token"@.len());
    assert("wait_time"@.len() != "reverse"@.len());
    assert("wait_time"@.len() != "idempotency_token"@.len());
    assert("prefix"@[0] != "filter"@[0]);
    assert("prefix"@.len() != "per_page"@.len());
    assert("prefix"@.len() != "next_token"@.len());
    assert("prefix"@.len() != "reverse"@.len());
    assert("prefix"@.len() != "idempotency_token"@.len());
    assert("filter"@.len() != "per_page"@.len());
    assert("filter"@.len() != "next_token"@.len());
    assert("filter"@.len() != "reverse"@.len());
    assert("filter"@.len() != "idempotency_token"@.len());
    assert("per_page"@.len() != "next_token"@.len());
    assert("per_page"@.len() != "reverse"@.len());
    assert("per_page"@.len() != "idempotency_token"@.len());
    assert("next_token"@.len() != "reverse"@.len());
    assert("next_token"@.len() != "idempotency_token"@.len());
    assert("reverse"@.len() != "idempotency_token"@.len());
}

proof fn lemma_values_avoided(ps: Pairs, k: Seq<char>)
    requires
        avoids(ps, k),
    ensures
        values_of(ps, k, false) == Seq::<Seq<char>>::empty(),
    decreases ps.len(),
{
    if ps.len() > 0 {
        assert(!keys_match(ps[ps.len() - 1].0, k, false));
        lemma_values_avoided(ps.drop_last(), k);
    }
}

/// Options with every field absent leave a request's query parameters and
/// headers as they were.
pub proof fn lemma_absent_options_keep_request(r: RequestView, q: QueryOptions, w: WriteOptions)
    requires
        q.is_absent(),
        w.is_absent(),
    ensures
        with_query_options(r, q) == r,
        with_write_options(r, w) == r,
{
    assert(r.query + seq![] =~= r.query);
}

/// The headers after the generic headers and the token of an options
/// value: a given token is the one value of the token header, whatever the
/// generic headers say; otherwise a header holds the last value the generic
/// headers give it, or else what it held.
pub proof fn lemma_header_values(
    h: Pairs,
    headers: Option<Vec<(String, String)>>,
    auth_token: Option<String>,
    k: Seq<char>,
)
    ensures
        values_of(headers_with_options(h, headers, auth_token), k, true) == header_values_after(
            h,
            headers,
            auth_token,
            k,
        ),
{
    let h1 = with_all(h, list_of(headers), true);
    lemma_values_with_all(h, list_of(headers), k, true);
    lemma_values_with_opt(h1, token_header(), text_of(auth_token), k, true);
}

/// An authentication token given in the options of a call is the one
/// value of the token header, over the client's default token and over any
/// generic header of the same name.
pub proof fn lemma_token_override_wins(
    r: RequestView,
    q: QueryOptions,
    w: WriteOptions,
    k: Seq<char>,
)
    requires
        same_name(k, token_header()),
    ensures
        q.auth_token is Some ==> values_of(with_query_options(r, q).headers, k, true) == seq![
            q.auth_token->0@,
        ],
        w.auth_token is Some ==> values_of(with_write_options(r, w).headers, k, true) == seq![
            w.auth_token->0@,
        ],
{
    lemma_header_values(r.headers, q.headers, q.auth_token, k);
    lemma_header_values(r.headers, w.headers, w.auth_token, k);
}

/// Each named option of a reading call that is present becomes the one
/// value of its query parameter, whatever the other options hold, as long
/// as the generic parameters do not use that name; an absent one leaves its
/// parameter as it was; every other parameter keeps its values and gains
/// those of the generic parameters. Headers follow [`header_values_after`].
pub proof fn lemma_query_options_independent(r: RequestView, o: QueryOptions, k: Seq<char>)
    requires
        query_option_for(o, k) is Some ==> avoids(list_of(o.params), k),
    ensures
        values_of(with_query_options(r, o).query, k, false) == match query_option_for(o, k) {
            Some(Some(v)) => seq![v],
            Some(None) => values_of(r.query, k, false),
            None => values_of(r.query, k, false) + values_of(list_of(o.params), k, false),
        },
        values_of(with_query_options(r, o).headers, k, true) == header_values_after(
            r.headers,
            o.headers,
            o.auth_token,
            k,
        ),
{
    lemma_option_names_differ();
    let q0 = r.query;
    let q1 = with_opt(q0, "region"@, text_of(o.region), false);
    let q2 = with_opt(q1, "namespace"@, text_of(o.namespace), false);
    let q3 = with_opt(q2, "allow_stale"@, bool_text_of(o.allow_stale), false);
    let q4 = with_opt(q3, "wait_index"@, u64_text_of(o.wait_index), false);
    let q5 = with_opt(q4, "wait_time"@, u64_text_of(o.wait_time), false);
    let q6 = with_opt(q5, "prefix"@, text_of(o.prefix), false);
    let q7 = q6 + list_of(o.params);
    let q8 = with_opt(q7, "filter"@, text_of(o.filter), false);
    let q9 = with_opt(q8, "per_page"@, i32_text_of(o.per_page), false);
    let q10 = with_opt(q9, "next_token"@, text_of(o.next_token), false);
    lemma_values_with_opt(q0, "region"@, text_of(o.region), k, false);
    lemma_values_with_opt(q1, "namespace"@, text_of(o.namespace), k, false);
    lemma_values_with_opt(q2, "allow_stale"@, bool_text_of(o.allow_stale), k, false);
    lemma_values_with_opt(q3, "wait_index"@, u64_text_of(o.wait_index), k, false);
    lemma_values_with_opt(q4, "wait_time"@, u64_text_of(o.wait_time), k, false);
    lemma_values_with_opt(q5, "prefix"@, text_of(o.prefix), k, false);
    lemma_values_concat(q6, list_of(o.params), k, false);
    if query_option_for(o, k) is Some {
        lemma_values_avoided(list_of(o.params), k);
        assert(values_of(q6, k, false) + Seq::<Seq<char>>::empty() =~= values_of(q6, k, false));
    }
    lemma_values_with_opt(q7, "filter"@, text_of(o.filter), k, false);
    lemma_values_with_opt(q8, "per_page"@, i32_text_of(o.per_page), k, false);
    lemma_values_with_opt(q9, "next_token"@, text_of(o.next_token), k, false);
    lemma_values_with_opt(q10, "reverse"@, bool_text_of(o.reverse), k, false);
    lemma_header_values(r.headers, o.headers, o.auth_token, k);
}

/// Each named option of a writing call that is present becomes the one
/// value of its query parameter, whatever the other options hold; an absent
/// one, and every other parameter, keeps what it held. Headers follow
/// [`header_values_after`].
pub proof fn lemma_write_options_independent(r: RequestView, o: WriteOptions, k: Seq<char>)
    ensures
        values_of(with_write_options(r, o).query, k, false) == match write_option_for(o, k) {
            Some(Some(v)) => seq![v],
            _ => values_of(r.query, k, false),
        },
        values_of(with_write_options(r, o).headers, k, true) == header_values_after(
            r.headers,
            o.headers,
            o.auth_token,
            k,
        ),
{
    lemma_option_names_differ();
    let q1 = with_opt(r.query, "region"@, text_of(o.region), false);
    let q2 = with_opt(q1, "namespace"@, text_of(o.namespace), false);
    lemma_values_with_opt(r.query, "region"@, text_of(o.region), k, false);
    lemma_values_with_opt(q1, "namespace"@, text_of(o.namespace), k, false);
    lemma_values_with_opt(q2, "idempotency_token"@, text_of(o.idempotency_token), k, false);
    lemma_header_values(r.headers, o.headers, o.auth_token, k);
}

impl PendingRequest {
    /// The request with `body` as its encoded body.
    pub fn with_body(self, body: Vec<u8>) -> (r: PendingRequest)
        ensures
            r@ == (RequestView { body: Some(body@), ..self@ }),
    {
        PendingRequest { body: Some(body), ..self }
    }
}

} // verus!
