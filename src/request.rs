//! Encoding a models listing call into the HTTP request that carries it.
use vstd::prelude::*;
use crate::config::{opt_view, Client, Configuration};
use crate::decimal::{decimal, decimal_string};

verus! {

/// One `name=value` pair of a query string, not yet percent-encoded.
pub struct QueryParam {
    pub name: String,
    pub value: String,
}

/// A request ready for a transport: method, URL without query, query pairs
/// in order, and the value of the `Authorization` header if one is sent.
pub struct HttpRequest {
    pub method: String,
    pub url: String,
    pub query: Vec<QueryParam>,
    pub authorization: Option<String>,
}

/// The query pairs as `(name, value)` texts.
pub open spec fn query_view(q: Seq<QueryParam>) -> Seq<(Seq<char>, Seq<char>)> {
    q.map_values(|p: QueryParam| (p.name@, p.value@))
}

/// The pair `name=value` where a value is present, nothing where it is not.
pub open spec fn optional_pair(name: Seq<char>, value: Option<Seq<char>>) -> Seq<(Seq<char>, Seq<char>)> {
    match value {
        Some(v) => seq![(name, v)],
        None => seq![],
    }
}

/// The decimal text of an optional integer.
pub open spec fn opt_decimal(n: Option<i32>) -> Option<Seq<char>> {
    match n {
        Some(k) => Some(decimal(k as int)),
        None => None,
    }
}

/// The query of a listing call: `provider`, `limit` and `offset` in that
/// order, each only where it is present.
pub open spec fn list_models_query(
    provider: Option<Seq<char>>,
    limit: Option<i32>,
    offset: Option<i32>,
) -> Seq<(Seq<char>, Seq<char>)> {
    optional_pair("provider"@, provider) + optional_pair("limit"@, opt_decimal(limit))
        + optional_pair("offset"@, opt_decimal(offset))
}

/// The `Authorization` header value for a credential: `Bearer <token>`, or
/// no header at all without one.
pub open spec fn bearer_header(token: Option<Seq<char>>) -> Option<Seq<char>> {
    match token {
        Some(t) => Some("Bearer "@ + t),
        None => None,
    }
}

proof fn lemma_optional_pair_contains(name: Seq<char>, value: Option<Seq<char>>, x: (Seq<char>, Seq<char>))
    ensures
        optional_pair(name, value).contains(x) <==> (value is Some && x == (name, value->0)),
{
    if value is Some {
        assert(optional_pair(name, value)[0] == (name, value->0));
    }
}

/// Every combination of parameters, all absent included, is encoded by
/// presence alone: the query holds a `provider`, `limit` or `offset` pair
/// exactly when that parameter is given, then with its text (the decimal text
/// for an integer), and holds nothing else.
pub proof fn list_models_query_by_presence(provider: Option<Seq<char>>, limit: Option<i32>, offset: Option<i32>)
    ensures
        forall|v: Seq<char>| #[trigger] list_models_query(provider, limit, offset).contains(("provider"@, v))
            <==> provider == Some(v),
        forall|v: Seq<char>| #[trigger] list_models_query(provider, limit, offset).contains(("limit"@, v))
            <==> opt_decimal(limit) == Some(v),
        forall|v: Seq<char>| #[trigger] list_models_query(provider, limit, offset).contains(("offset"@, v))
            <==> opt_decimal(offset) == Some(v),
        forall|i: int| 0 <= i < list_models_query(provider, limit, offset).len() ==> {
            let name = #[trigger] list_models_query(provider, limit, offset)[i].0;
            name == "provider"@ || name == "limit"@ || name == "offset"@
        },
        list_models_query(provider, limit, offset).len() == (if provider is Some { 1int } else { 0 })
            + (if limit is Some { 1int } else { 0 }) + (if offset is Some { 1int } else { 0 }),
{
    reveal_strlit("provider");
    reveal_strlit("limit");
    reveal_strlit("offset");
    let p = optional_pair("provider"@, provider);
    let l = optional_pair("limit"@, opt_decimal(limit));
    let o = optional_pair("offset"@, opt_decimal(offset));
    let q = list_models_query(provider, limit, offset);
    assert(q == p + l + o);
    assert(p.len() == if provider is Some { 1int } else { 0 });
    assert(l.len() == if limit is Some { 1int } else { 0 });
    assert(o.len() == if offset is Some { 1int } else { 0 });
    assert("provider"@ != "limit"@ && "provider"@ != "offset"@ && "limit"@ != "offset"@) by {
        assert("provider"@[0] != "limit"@[0]);
        assert("provider"@[0] != "offset"@[0]);
        assert("limit"@[0] != "offset"@[0]);
    }
    assert forall|x: (Seq<char>, Seq<char>)| #[trigger] q.contains(x) <==> (p.contains(x) || l.contains(x)
        || o.contains(x)) by {
        if q.contains(x) {
            let i = choose|i: int| 0 <= i < q.len() && q[i] == x;
            if i < p.len() {
                assert(p[i] == x);
            } else if i < p.len() + l.len() {
                assert(l[i - p.len()] == x);
            } else {
                assert(o[i - p.len() - l.len()] == x);
            }
        }
        if p.contains(x) {
            let i = choose|i: int| 0 <= i < p.len() && p[i] == x;
            assert(q[i] == x);
        }
        if l.contains(x) {
            let i = choose|i: int| 0 <= i < l.len() && l[i] == x;
            assert(q[p.len() + i] == x);
        }
        if o.contains(x) {
            let i = choose|i: int| 0 <= i < o.len() && o[i] == x;
            assert(q[p.len() + l.len() + i] == x);
        }
    }
    assert forall|v: Seq<char>| #[trigger] q.contains(("provider"@, v)) <==> provider == Some(v) by {
        assert(q.contains(("provider"@, v)) <==> (p.contains(("provider"@, v)) || l.contains(("provider"@, v))
            || o.contains(("provider"@, v))));
        lemma_optional_pair_contains("provider"@, provider, ("provider"@, v));
        lemma_optional_pair_contains("limit"@, opt_decimal(limit), ("provider"@, v));
        lemma_optional_pair_contains("offset"@, opt_decimal(offset), ("provider"@, v));
    }
    assert forall|v: Seq<char>| #[trigger] q.contains(("limit"@, v)) <==> opt_decimal(limit) == Some(v) by {
        assert(q.contains(("limit"@, v)) <==> (p.contains(("limit"@, v)) || l.contains(("limit"@, v))
            || o.contains(("limit"@, v))));
        lemma_optional_pair_contains("provider"@, provider, ("limit"@, v));
        lemma_optional_pair_contains("limit"@, opt_decimal(limit), ("limit"@, v));
        lemma_optional_pair_contains("offset"@, opt_decimal(offset), ("limit"@, v));
    }
    assert forall|v: Seq<char>| #[trigger] q.contains(("offset"@, v)) <==> opt_decimal(offset) == Some(v) by {
        assert(q.contains(("offset"@, v)) <==> (p.contains(("offset"@, v)) || l.contains(("offset"@, v))
            || o.contains(("offset"@, v))));
        lemma_optional_pair_contains("provider"@, provider, ("offset"@, v));
        lemma_optional_pair_contains("limit"@, opt_decimal(limit), ("offset"@, v));
        lemma_optional_pair_contains("offset"@, opt_decimal(offset), ("offset"@, v));
    }
    assert forall|i: int| 0 <= i < q.len() implies (q[i].0 == "provider"@ || q[i].0 == "limit"@
        || q[i].0 == "offset"@) by {
        assert(q.contains(q[i]));
    }
}

/// A configuration without a credential sends no `Authorization` header at
/// all, never an empty one; one with a credential sends `Bearer ` followed by
/// it.
pub proof fn bearer_header_by_credential(token: Option<Seq<char>>)
    ensures
        bearer_header(token) is None <==> token is None,
        forall|t: Seq<char>| token == Some(t) ==> bearer_header(token) == Some("Bearer "@ + t),
{
}

fn push_optional(q: &mut Vec<QueryParam>, name: &str, value: Option<String>)
    ensures
        query_view(final(q)@) == query_view(old(q)@) + optional_pair(name@, opt_view(value)),
{
    let ghost before = q@;
    match value {
        Some(v) => {
            q.push(QueryParam { name: String::from_str(name), value: v });
        },
        None => {},
    }
    assert(query_view(q@) =~= query_view(before) + optional_pair(name@, opt_view(value)));
}

fn opt_decimal_string(n: Option<i32>) -> (r: Option<String>)
    ensures
        opt_view(r) == opt_decimal(n),
{
    match n {
        Some(k) => Some(decimal_string(k)),
        None => None,
    }
}

/// The query pairs of a listing call; absent parameters are left out rather
/// than sent empty.
pub fn encode_list_models_query(provider: Option<String>, limit: Option<i32>, offset: Option<i32>) -> (r: Vec<QueryParam>)
    ensures
        query_view(r@) == list_models_query(opt_view(provider), limit, offset),
{
    let mut q: Vec<QueryParam> = Vec::new();
    assert(query_view(q@) =~= seq![]);
    push_optional(&mut q, "provider", provider);
    push_optional(&mut q, "limit", opt_decimal_string(limit));
    push_optional(&mut q, "offset", opt_decimal_string(offset));
    assert(query_view(q@) =~= list_models_query(opt_view(provider), limit, offset));
    q
}

/// The `Authorization` header a configuration sends, if any.
pub fn authorization_header(config: &Configuration) -> (r: Option<String>)
    ensures
        opt_view(r) == bearer_header(opt_view(config.bearer_access_token)),
{
    match &config.bearer_access_token {
        Some(t) => {
            let mut h = String::from_str("Bearer ");
            h.append(t.as_str());
            Some(h)
        },
        None => None,
    }
}

impl Client {
    /// The request for one page of the models list: a `GET` of
    /// `{base_path}/models` with the present parameters as query pairs and
    /// the bearer credential, if configured, as `Authorization` header.
    pub fn list_models_request(&self, provider: Option<String>, limit: Option<i32>, offset: Option<i32>) -> (r: HttpRequest)
        ensures
            r.method@ == "GET"@,
            r.url@ == self.spec_config().base_path@ + "/models"@,
            query_view(r.query@) == list_models_query(opt_view(provider), limit, offset),
            opt_view(r.authorization) == bearer_header(opt_view(self.spec_config().bearer_access_token)),
    {
        let config = self.config();
        let mut url = config.base_path.clone();
        url.append("/models");
        HttpRequest {
            method: String::from_str("GET"),
            url,
            query: encode_list_models_query(provider, limit, offset),
            authorization: authorization_header(config),
        }
    }
}

} // verus!
