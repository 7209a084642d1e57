//! Routing of a decoded request head to the response it receives.
use vstd::prelude::*;
use vstd::string::StrSliceExecFns;
use crate::dispatch::{write_plan, Write};
use crate::query::{
    extract_name_from_query, first_name_value, fragments, greeting_name, lemma_field_len, name_key,
    query_view,
};

verus! {

/// The JSON text of an object with these members, keys and values both
/// strings, as serde_json writes it.
pub uninterp spec fn json_object_text(fields: Seq<(Seq<char>, Seq<char>)>) -> Seq<char>;

/// The views of a list of string pairs.
pub open spec fn pairs_view(fields: Seq<(String, String)>) -> Seq<(Seq<char>, Seq<char>)> {
    fields.map_values(|p: (String, String)| (p.0@, p.1@))
}

/// Keys that are non-empty and whose first characters strictly increase: they
/// are distinct and already in the order of a map sorted by key.
pub open spec fn keys_ascending(fields: Seq<(Seq<char>, Seq<char>)>) -> bool {
    forall|i: int, j: int|
        0 <= i < j < fields.len() ==> fields[i].0.len() > 0 && fields[j].0.len() > 0 && (
        #[trigger] fields[i].0[0] as u32) < (#[trigger] fields[j].0[0] as u32)
}

/// Text that JSON writes without escapes: no quote, no backslash, no control
/// character below U+0020.
pub open spec fn json_plain(s: Seq<char>) -> bool {
    forall|i: int|
        0 <= i < s.len() ==> #[trigger] s[i] != '"' && s[i] != '\\' && (s[i] as u32) >= 0x20
}

/// Whether every key and value of `fields` is plain JSON text.
pub open spec fn plain_pairs(fields: Seq<(Seq<char>, Seq<char>)>) -> bool {
    forall|i: int|
        0 <= i < fields.len() ==> json_plain(#[trigger] fields[i].0) && json_plain(fields[i].1)
}

/// `s` between double quotes.
pub open spec fn quoted(s: Seq<char>) -> Seq<char> {
    seq!['"'] + s + seq!['"']
}

/// The members `"key":"value"`, separated by commas.
pub open spec fn members_text(fields: Seq<(Seq<char>, Seq<char>)>) -> Seq<char>
    decreases fields.len(),
{
    if fields.len() == 0 {
        Seq::empty()
    } else {
        let m = quoted(fields[0].0) + seq![':'] + quoted(fields[0].1);
        if fields.len() == 1 {
            m
        } else {
            m + seq![','] + members_text(fields.drop_first())
        }
    }
}

/// The compact JSON text of an object of plain members, in the given order.
pub open spec fn object_text(fields: Seq<(Seq<char>, Seq<char>)>) -> Seq<char> {
    seq!['{'] + members_text(fields) + seq!['}']
}

/// The text of a JSON object of string members with ascending keys: written
/// out where no member needs an escape, named otherwise.
pub open spec fn json_text(fields: Seq<(Seq<char>, Seq<char>)>) -> Seq<char> {
    if plain_pairs(fields) {
        object_text(fields)
    } else {
        json_object_text(fields)
    }
}

/// Relies on serde_json::to_string, applied to a map from string keys to
/// string values: its documentation gives non-string keys or a failing
/// `Serialize` impl as the only causes of failure, neither of which a string
/// map has. Its compact formatter writes `{`, the members `"key":"value"`
/// in key order separated by `,`, then `}`, and escapes only `"`, `\` and
/// characters below U+0020. The keys are given distinct and in ascending
/// order, so the map keeps every pair in place.
#[verifier::external_body]
fn json_object(fields: &Vec<(String, String)>) -> (r: String)
    requires
        keys_ascending(pairs_view(fields@)),
    ensures
        r@ == json_object_text(pairs_view(fields@)),
        plain_pairs(pairs_view(fields@)) ==> r@ == object_text(pairs_view(fields@)),
{
    let m: std::collections::BTreeMap<&str, &str> =
        fields.iter().map(|p| (p.0.as_str(), p.1.as_str())).collect();
    match serde_json::to_string(&m) {
        Ok(s) => s,
        Err(_) => String::new(),
    }
}

/// Request methods, as the routing table tells them apart.
#[derive(Clone, Copy, Debug, PartialEq, Eq, Structural)]
pub enum Method {
    Get,
    Head,
    Post,
    Put,
    Delete,
    Connect,
    Options,
    Trace,
    Patch,
    /// Any method outside the standard set.
    Other,
}

/// The method that a request-line token names; tokens are case-sensitive.
pub open spec fn method_of(token: Seq<char>) -> Method {
    if token == "GET"@ {
        Method::Get
    } else if token == "HEAD"@ {
        Method::Head
    } else if token == "POST"@ {
        Method::Post
    } else if token == "PUT"@ {
        Method::Put
    } else if token == "DELETE"@ {
        Method::Delete
    } else if token == "CONNECT"@ {
        Method::Connect
    } else if token == "OPTIONS"@ {
        Method::Options
    } else if token == "TRACE"@ {
        Method::Trace
    } else if token == "PATCH"@ {
        Method::Patch
    } else {
        Method::Other
    }
}

impl Method {
    /// The method that `token` names.
    pub fn from_token(token: &str) -> (r: Method)
        ensures
            r == method_of(token@),
    {
        if str_equal(token, "GET") {
            Method::Get
        } else if str_equal(token, "HEAD") {
            Method::Head
        } else if str_equal(token, "POST") {
            Method::Post
        } else if str_equal(token, "PUT") {
            Method::Put
        } else if str_equal(token, "DELETE") {
            Method::Delete
        } else if str_equal(token, "CONNECT") {
            Method::Connect
        } else if str_equal(token, "OPTIONS") {
            Method::Options
        } else if str_equal(token, "TRACE") {
            Method::Trace
        } else if str_equal(token, "PATCH") {
            Method::Patch
        } else {
            Method::Other
        }
    }
}

/// What the routing step hands to the dispatcher: a status code, the
/// `content-type` header when there is one, and the body text when there is one.
pub struct ResponseOutcome {
    pub status: u16,
    pub content_type: Option<String>,
    pub body: Option<String>,
}

/// The mathematical value of a `ResponseOutcome`.
pub struct OutcomeView {
    pub status: u16,
    pub content_type: Option<Seq<char>>,
    pub body: Option<Seq<char>>,
}

impl View for ResponseOutcome {
    type V = OutcomeView;

    open spec fn view(&self) -> OutcomeView {
        OutcomeView {
            status: self.status,
            content_type: match self.content_type {
                Some(c) => Some(c@),
                None => None,
            },
            body: match self.body {
                Some(b) => Some(b@),
                None => None,
            },
        }
    }
}

impl ResponseOutcome {
    /// Whether the response carries a body, and so a data frame.
    pub fn has_body(&self) -> (r: bool)
        ensures
            r == (self.body is Some),
    {
        self.body.is_some()
    }
}

/// The greeting of the root route for a given name.
pub open spec fn greeting_message(name: Seq<char>) -> Seq<char> {
    "Hello, "@ + name + " via HTTP/3!"@
}

/// Members of the root route's JSON body.
pub open spec fn hello_fields(name: Seq<char>) -> Seq<(Seq<char>, Seq<char>)> {
    seq![("message"@, greeting_message(name)), ("protocol"@, "HTTP/3"@)]
}

/// Members of the health route's JSON body.
pub open spec fn health_fields() -> Seq<(Seq<char>, Seq<char>)> {
    seq![("protocol"@, "HTTP/3"@), ("status"@, "healthy"@), ("version"@, "1.0.0"@)]
}

/// The response that a request with this method, path and query receives:
/// `GET /` greets the name of the query, `GET /health` reports the server's
/// state, and every other pair of method and path is not found. The path is
/// compared, never interpreted.
pub open spec fn route_spec(method: Method, path: Seq<char>, query: Option<Seq<char>>) -> OutcomeView {
    if method == Method::Get && path == "/"@ {
        OutcomeView {
            status: 200,
            content_type: Some("application/json"@),
            body: Some(json_text(hello_fields(greeting_name(query)))),
        }
    } else if method == Method::Get && path == "/health"@ {
        OutcomeView {
            status: 200,
            content_type: Some("application/json"@),
            body: Some(json_text(health_fields())),
        }
    } else {
        OutcomeView { status: 404, content_type: None, body: Some("Not Found"@) }
    }
}

/// Whether two strings hold the same characters.
pub fn str_equal(a: &str, b: &str) -> (r: bool)
    ensures
        r == (a@ == b@),
{
    let n = a.unicode_len();
    if n != b.unicode_len() {
        return false;
    }
    let mut i: usize = 0;
    while i < n
        invariant
            n == a@.len(),
            n == b@.len(),
            i <= n,
            forall|k: int| 0 <= k < i ==> a@[k] == b@[k],
        decreases n - i,
    {
        if a.get_char(i) != b.get_char(i) {
            return false;
        }
        i = i + 1;
    }
    assert(a@ =~= b@);
    true
}

/// The greeting of the root route for `name`.
pub fn hello_message(name: &str) -> (r: String)
    ensures
        r@ == greeting_message(name@),
{
    let mut s = String::from_str("Hello, ");
    s.append(name);
    s.append(" via HTTP/3!");
    s
}

/// The greeting of the plaintext listener: `Hello, <name>!`, with `World`
/// when no name is given.
pub fn plain_greeting(name: Option<&str>) -> (r: String)
    ensures
        r@ == "Hello, "@ + (match name {
            Some(n) => n@,
            None => "World"@,
        }) + "!"@,
{
    let mut s = String::from_str("Hello, ");
    match name {
        Some(n) => s.append(n),
        None => s.append("World"),
    }
    s.append("!");
    s
}

/// The members of the plaintext listener's health report.
pub fn plain_health() -> (r: Vec<(String, String)>)
    ensures
        pairs_view(r@) == seq![("status"@, "healthy"@), ("version"@, "1.0.0"@)],
{
    let r = vec![
        (String::from_str("status"), String::from_str("healthy")),
        (String::from_str("version"), String::from_str("1.0.0")),
    ];
    assert(pairs_view(r@) =~= seq![("status"@, "healthy"@), ("version"@, "1.0.0"@)]);
    r
}

/// Builds the response for one request head.
pub fn route(method: Method, path: &str, query: Option<&str>) -> (r: ResponseOutcome)
    ensures
        r@ == route_spec(method, path@, query_view(query)),
{
    if method == Method::Get && str_equal(path, "/") {
        let name = extract_name_from_query(query);
        let message = hello_message(name.as_str());
        let fields = vec![
            (String::from_str("message"), message),
            (String::from_str("protocol"), String::from_str("HTTP/3")),
        ];
        assert(pairs_view(fields@) =~= hello_fields(greeting_name(query_view(query))));
        proof {
            lemma_hello_keys(greeting_name(query_view(query)));
        }
        let body = json_object(&fields);
        ResponseOutcome {
            status: 200,
            content_type: Some(String::from_str("application/json")),
            body: Some(body),
        }
    } else if method == Method::Get && str_equal(path, "/health") {
        let fields = vec![
            (String::from_str("protocol"), String::from_str("HTTP/3")),
            (String::from_str("status"), String::from_str("healthy")),
            (String::from_str("version"), String::from_str("1.0.0")),
        ];
        assert(pairs_view(fields@) =~= health_fields());
        proof {
            lemma_health_keys();
        }
        let body = json_object(&fields);
        ResponseOutcome {
            status: 200,
            content_type: Some(String::from_str("application/json")),
            body: Some(body),
        }
    } else {
        ResponseOutcome { status: 404, content_type: None, body: Some(String::from_str("Not Found")) }
    }
}

proof fn lemma_hello_keys(name: Seq<char>)
    ensures
        keys_ascending(hello_fields(name)),
{
    reveal_strlit("message");
    reveal_strlit("protocol");
    let f = hello_fields(name);
    assert(f[0].0[0] == 'm');
    assert(f[1].0[0] == 'p');
}

proof fn lemma_health_keys()
    ensures
        keys_ascending(health_fields()),
{
    reveal_strlit("protocol");
    reveal_strlit("status");
    reveal_strlit("version");
    let f = health_fields();
    assert(f[0].0[0] == 'p');
    assert(f[1].0[0] == 's');
    assert(f[2].0[0] == 'v');
}

/// A query of the single fragment `name=v`, where `v` holds no `&`, makes the
/// root route greet `v` verbatim: the message is `Hello, ` followed by `v`
/// itself, then ` via HTTP/3!`.
pub proof fn lemma_name_verbatim(v: Seq<char>)
    requires
        forall|i: int| 0 <= i < v.len() ==> v[i] != '&',
    ensures
        greeting_name(Some(name_key() + v)) == v,
        route_spec(Method::Get, "/"@, Some(name_key() + v)).body == Some(
            json_text(hello_fields(v)),
        ),
        hello_fields(v)[0].1.subrange(7, 7 + v.len() as int) == v,
{
    let q = name_key() + v;
    assert forall|i: int| 0 <= i < q.len() implies q[i] != '&' by {
        if i >= 5 {
            assert(q[i] == v[i - 5]);
        }
    }
    lemma_field_len(q, q.len() as int);
    assert(fragments(q) == seq![q]);
    assert(q.take(5) =~= name_key());
    assert(q.skip(5) =~= v);
    assert(first_name_value(seq![q]) == Some(v));
    reveal_strlit("Hello, ");
    assert(hello_fields(v)[0].1.subrange(7, 7 + v.len() as int) =~= v);
}

/// Without a query the root route greets the default name, `World`.
pub proof fn lemma_default_greeting()
    ensures
        route_spec(Method::Get, "/"@, None) == (OutcomeView {
            status: 200,
            content_type: Some("application/json"@),
            body: Some(json_text(hello_fields(seq!['W', 'o', 'r', 'l', 'd']))),
        }),
{
}

/// Only the root route reads the query: for any other method or path, two
/// queries give the same response.
pub proof fn lemma_query_only_on_root(
    method: Method,
    path: Seq<char>,
    q1: Option<Seq<char>>,
    q2: Option<Seq<char>>,
)
    requires
        !(method == Method::Get && path == "/"@),
    ensures
        route_spec(method, path, q1) == route_spec(method, path, q2),
{
}

/// Every pair of method and path outside `GET /` and `GET /health` is answered
/// with status 404 and the plain body `Not Found`, whatever the path holds.
pub proof fn lemma_unsupported_not_found(method: Method, path: Seq<char>, query: Option<Seq<char>>)
    requires
        !(method == Method::Get && (path == "/"@ || path == "/health"@)),
    ensures
        route_spec(method, path, query).status == 404,
        route_spec(method, path, query).content_type is None,
        route_spec(method, path, query).body == Some("Not Found"@),
{
}

/// Every routed response carries a body, so it is written as a head frame,
/// one data frame, and the finish signal, in that order.
pub proof fn lemma_routed_frames(method: Method, path: Seq<char>, query: Option<Seq<char>>)
    ensures
        route_spec(method, path, query).body is Some,
        write_plan(route_spec(method, path, query).body is Some) == seq![
            Write::Head,
            Write::Data,
            Write::Finish,
        ],
{
}

proof fn lemma_plain_concat(a: Seq<char>, b: Seq<char>)
    requires
        json_plain(a),
        json_plain(b),
    ensures
        json_plain(a + b),
{
    assert forall|i: int| 0 <= i < (a + b).len() implies #[trigger] (a + b)[i] != '"' && (a
        + b)[i] != '\\' && ((a + b)[i] as u32) >= 0x20 by {
        if i < a.len() {
            assert((a + b)[i] == a[i]);
        } else {
            assert((a + b)[i] == b[i - a.len()]);
        }
    }
}

proof fn lemma_plain_fixed_text()
    ensures
        json_plain("message"@),
        json_plain("protocol"@),
        json_plain("HTTP/3"@),
        json_plain("Hello, "@),
        json_plain(" via HTTP/3!"@),
        json_plain("status"@),
        json_plain("healthy"@),
        json_plain("version"@),
        json_plain("1.0.0"@),
{
    reveal_strlit("message");
    reveal_strlit("protocol");
    reveal_strlit("HTTP/3");
    reveal_strlit("Hello, ");
    reveal_strlit(" via HTTP/3!");
    reveal_strlit("status");
    reveal_strlit("healthy");
    reveal_strlit("version");
    reveal_strlit("1.0.0");
}

/// When the name needs no JSON escape, the root route's body is exactly the
/// compact object `{"message":"Hello, <name> via HTTP/3!","protocol":"HTTP/3"}`.
pub proof fn lemma_hello_body_exact(name: Seq<char>, query: Option<Seq<char>>)
    requires
        greeting_name(query) == name,
        json_plain(name),
    ensures
        route_spec(Method::Get, "/"@, query).body == Some(object_text(hello_fields(name))),
{
    lemma_plain_fixed_text();
    lemma_plain_concat("Hello, "@, name);
    lemma_plain_concat("Hello, "@ + name, " via HTTP/3!"@);
    let f = hello_fields(name);
    assert(plain_pairs(f)) by {
        assert forall|i: int| 0 <= i < f.len() implies json_plain(#[trigger] f[i].0) && json_plain(
            f[i].1,
        ) by {
            if i == 0 {
            } else {
                assert(i == 1);
            }
        }
    }
}

/// The health route's body is exactly
/// `{"protocol":"HTTP/3","status":"healthy","version":"1.0.0"}`, whatever
/// the query.
pub proof fn lemma_health_body_exact(query: Option<Seq<char>>)
    ensures
        route_spec(Method::Get, "/health"@, query).body == Some(
            "{\"protocol\":\"HTTP/3\",\"status\":\"healthy\",\"version\":\"1.0.0\"}"@,
        ),
{
    lemma_plain_fixed_text();
    let f = health_fields();
    assert(plain_pairs(f)) by {
        assert forall|i: int| 0 <= i < f.len() implies json_plain(#[trigger] f[i].0) && json_plain(
            f[i].1,
        ) by {
            if i == 0 {
            } else if i == 1 {
            } else {
                assert(i == 2);
            }
        }
    }
    reveal_strlit("protocol");
    reveal_strlit("HTTP/3");
    reveal_strlit("status");
    reveal_strlit("healthy");
    reveal_strlit("version");
    reveal_strlit("1.0.0");
    reveal_strlit("/");
    reveal_strlit("/health");
    reveal_strlit("{\"protocol\":\"HTTP/3\",\"status\":\"healthy\",\"version\":\"1.0.0\"}");
    let f1 = f.drop_first();
    let f2 = f1.drop_first();
    assert(f1[0] == f[1] && f2[0] == f[2] && f2.len() == 1);
    let m0 = quoted(f[0].0) + seq![':'] + quoted(f[0].1);
    let m1 = quoted(f[1].0) + seq![':'] + quoted(f[1].1);
    let m2 = quoted(f[2].0) + seq![':'] + quoted(f[2].1);
    assert(members_text(f2) == m2);
    assert(members_text(f1) == m1 + seq![','] + m2);
    assert(members_text(f) == m0 + seq![','] + (m1 + seq![','] + m2));
    assert(object_text(f) =~= "{\"protocol\":\"HTTP/3\",\"status\":\"healthy\",\"version\":\"1.0.0\"}"@);
    assert("/health"@.len() != "/"@.len());
    assert(route_spec(Method::Get, "/health"@, query).body == Some(json_text(f)));
    assert(json_text(f) == object_text(f));
}

/// The query `name=Ada` gets the body
/// `{"message":"Hello, Ada via HTTP/3!","protocol":"HTTP/3"}` from the root route.
pub proof fn lemma_ada_body_exact()
    ensures
        route_spec(Method::Get, "/"@, Some("name=Ada"@)).body == Some(
            "{\"message\":\"Hello, Ada via HTTP/3!\",\"protocol\":\"HTTP/3\"}"@,
        ),
{
    reveal_strlit("name=Ada");
    reveal_strlit("Ada");
    assert("name=Ada"@ =~= name_key() + "Ada"@);
    lemma_name_verbatim("Ada"@);
    assert(json_plain("Ada"@));
    lemma_hello_body_exact("Ada"@, Some("name=Ada"@));
    let f = hello_fields("Ada"@);
    let f1 = f.drop_first();
    assert(f1[0] == f[1] && f1.len() == 1);
    let m0 = quoted(f[0].0) + seq![':'] + quoted(f[0].1);
    let m1 = quoted(f[1].0) + seq![':'] + quoted(f[1].1);
    assert(members_text(f1) == m1);
    assert(members_text(f) == m0 + seq![','] + m1);
    reveal_strlit("message");
    reveal_strlit("protocol");
    reveal_strlit("HTTP/3");
    reveal_strlit("Hello, ");
    reveal_strlit(" via HTTP/3!");
    reveal_strlit("{\"message\":\"Hello, Ada via HTTP/3!\",\"protocol\":\"HTTP/3\"}");
    assert(object_text(f) =~= "{\"message\":\"Hello, Ada via HTTP/3!\",\"protocol\":\"HTTP/3\"}"@);
}

} // verus!
