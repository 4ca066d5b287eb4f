//! The request dispatcher's own rules: how a request is written down (URL,
//! query string, authorization, payload) and how a reply becomes exactly one
//! of four outcomes. Sending the request and reading its body is left to the
//! caller, which reports back what happened.
use vstd::prelude::*;
use crate::model::ApiError;
use crate::text::{form_bytes, form_encode, form_encoded, form_keeps, join_texts, joined, texts};
use vstd::utf8::{encode_utf8, is_ascii_chars, is_ascii_chars_encode_utf8};

verus! {

/// An HTTP method.
#[derive(Debug, Clone, Copy, PartialEq, Eq, Hash)]
pub enum Method {
    Get,
    Post,
    Patch,
    Delete,
}

/// What a successful reply's body is taken as.
#[derive(Debug, Clone, Copy, PartialEq, Eq, Hash)]
pub enum Expect {
    /// A JSON document of the operation's result type.
    Json,
    /// Nothing: the body is not read.
    Nothing,
    /// The raw bytes.
    Bytes,
}

/// A request, fully written down before it is sent.
#[derive(Debug, Clone, PartialEq, Eq, Hash)]
pub struct HttpRequest {
    pub method: Method,
    /// The full URL, query string included.
    pub url: String,
    /// The value of the `Authorization` header.
    pub authorization: String,
    /// The value of the `Content-Type` header, present exactly when there is a body.
    pub content_type: Option<String>,
    /// The JSON payload.
    pub body: Option<String>,
    pub expect: Expect,
}

/// The request never obtained a reply: DNS, connection, TLS, timeout or I/O failure.
#[derive(Debug, Clone, PartialEq, Eq, Hash)]
pub struct TransportError {
    pub cause: String,
}

/// A reply whose body does not have the shape its status calls for.
#[derive(Debug, Clone, PartialEq, Eq, Hash)]
pub struct ProtocolError {
    pub status: u16,
    pub cause: String,
}

/// How a call ended: exactly one of these holds.
#[derive(Debug, Clone, PartialEq, Eq, Hash)]
pub enum Outcome<T> {
    /// The service accepted the request; this is its decoded result.
    Success(T),
    /// The service rejected the request with this error report.
    Api(ApiError),
    /// The network failed.
    Transport(TransportError),
    /// The service answered with a body that does not fit the protocol.
    Protocol(ProtocolError),
}

/// What came back from sending a request.
#[derive(Debug, Clone, PartialEq, Eq, Hash)]
pub enum Reply {
    /// No response was obtained, for this cause.
    Unreachable(String),
    /// A response with this status code was obtained.
    Status(u16),
}

/// Which shape a response body is read as.
#[derive(Debug, Clone, Copy, PartialEq, Eq, Hash)]
pub enum BodyRole {
    /// The operation's result.
    Payload,
    /// An error report.
    ErrorReport,
}

/// What to do once a request has been sent.
#[derive(Debug, Clone, PartialEq, Eq, Hash)]
pub enum Next {
    /// Stop: the call failed at the transport level and no body is read.
    Fail(TransportError),
    /// Read the body in this role.
    Read(BodyRole),
}

/// A body as it was decoded, in the role it was read in; `Err` holds why it
/// could not be decoded.
#[derive(Debug, PartialEq, Eq)]
pub enum Decoded<T> {
    Payload(Result<T, String>),
    ErrorReport(Result<ApiError, String>),
}

/// A status in the success range.
pub open spec fn is_success(status: u16) -> bool {
    200 <= status <= 299
}

/// The role in which the body of a response with this status is read.
pub open spec fn body_role(status: u16) -> BodyRole {
    if is_success(status) { BodyRole::Payload } else { BodyRole::ErrorReport }
}

/// The role a decoded body was read in.
pub open spec fn role_of<T>(d: Decoded<T>) -> BodyRole {
    match d {
        Decoded::Payload(_) => BodyRole::Payload,
        Decoded::ErrorReport(_) => BodyRole::ErrorReport,
    }
}

/// The outcome of a response with this status and decoded body.
pub open spec fn outcome_of<T>(status: u16, body: Decoded<T>) -> Outcome<T> {
    match body {
        Decoded::Payload(Ok(v)) => Outcome::Success(v),
        Decoded::ErrorReport(Ok(e)) => Outcome::Api(e),
        Decoded::Payload(Err(cause)) => Outcome::Protocol(ProtocolError { status, cause }),
        Decoded::ErrorReport(Err(cause)) => Outcome::Protocol(ProtocolError { status, cause }),
    }
}

/// The role in which the body of a response with this status is read.
pub fn role_for_status(status: u16) -> (r: BodyRole)
    ensures
        r == body_role(status),
{
    if 200 <= status && status <= 299 {
        BodyRole::Payload
    } else {
        BodyRole::ErrorReport
    }
}

/// What follows a reply: a transport failure ends the call with no body
/// read; a response has its body read as its status calls for.
pub fn on_reply(reply: Reply) -> (r: Next)
    ensures
        match reply {
            Reply::Unreachable(cause) => r == Next::Fail(TransportError { cause }),
            Reply::Status(status) => r == Next::Read(body_role(status)),
        },
{
    match reply {
        Reply::Unreachable(cause) => Next::Fail(TransportError { cause }),
        Reply::Status(status) => Next::Read(role_for_status(status)),
    }
}

/// The outcome of a response: a decoded payload is a success, a decoded error
/// report is the service's rejection, and a body that could not be decoded in
/// either role is a protocol violation.
pub fn conclude<T>(status: u16, body: Decoded<T>) -> (r: Outcome<T>)
    requires
        role_of(body) == body_role(status),
    ensures
        r == outcome_of(status, body),
{
    match body {
        Decoded::Payload(Ok(v)) => Outcome::Success(v),
        Decoded::ErrorReport(Ok(e)) => Outcome::Api(e),
        Decoded::Payload(Err(cause)) => Outcome::Protocol(ProtocolError { status, cause }),
        Decoded::ErrorReport(Err(cause)) => Outcome::Protocol(ProtocolError { status, cause }),
    }
}

/// A response ends in success exactly when its status is in the success range
/// and its payload decoded, in the service's rejection exactly when its status
/// is outside that range and its error report decoded, and otherwise in a
/// protocol violation; a response never ends in a transport failure.
pub proof fn lemma_response_outcomes<T>(status: u16, body: Decoded<T>)
    requires
        role_of(body) == body_role(status),
    ensures
        outcome_of(status, body) is Success <==> (is_success(status) && body matches Decoded::Payload(Ok(_))),
        outcome_of(status, body) is Api <==> (!is_success(status) && body matches Decoded::ErrorReport(Ok(_))),
        outcome_of(status, body) is Protocol <==> (body matches Decoded::Payload(Err(_)) || body matches Decoded::ErrorReport(Err(_))),
        !(outcome_of(status, body) is Transport),
{
}

/// One `key=value` pair of a query string, both sides form-urlencoded.
pub open spec fn query_pair(key: Seq<char>, value: Seq<char>) -> Seq<char> {
    form_encoded(key) + seq!['='] + form_encoded(value)
}

/// The character sequences of key/value string pairs.
pub open spec fn pairs_view(v: Seq<(String, String)>) -> Seq<(Seq<char>, Seq<char>)> {
    v.map_values(|p: (String, String)| (p.0@, p.1@))
}

/// The query string of the pairs, in the given order, joined with `&`.
pub open spec fn query_text(pairs: Seq<(Seq<char>, Seq<char>)>) -> Seq<char> {
    joined(pairs.map_values(|p: (Seq<char>, Seq<char>)| query_pair(p.0, p.1)), seq!['&'])
}

/// A character that form-urlencoding keeps as it is: an ASCII letter or
/// digit, or one of `*-._`.
pub open spec fn form_plain_char(c: char) -> bool {
    ('a' <= c && c <= 'z') || ('A' <= c && c <= 'Z') || ('0' <= c && c <= '9') || c == '*'
        || c == '-' || c == '.' || c == '_'
}

/// Bytes of characters that form-urlencoding keeps come out as those characters.
proof fn lemma_form_bytes_plain(s: Seq<char>, bs: Seq<u8>)
    requires
        bs.len() == s.len(),
        forall|i: int| 0 <= i < s.len() ==> form_plain_char(#[trigger] s[i]),
        forall|i: int| 0 <= i < s.len() ==> #[trigger] bs[i] == s[i] as u8,
    ensures
        form_bytes(bs) == s,
    decreases s.len(),
{
    if s.len() > 0 {
        let n = s.len() - 1;
        lemma_form_bytes_plain(s.drop_last(), bs.drop_last());
        let c = s[n];
        assert(form_plain_char(c));
        assert(bs.last() == c as u8);
        assert(form_keeps(bs.last()));
        assert((bs.last() as char) == c);
        assert(form_bytes(bs) =~= s);
    }
}

/// Text made only of characters that form-urlencoding keeps is written as it is.
pub proof fn lemma_form_plain(s: Seq<char>)
    requires
        forall|i: int| 0 <= i < s.len() ==> form_plain_char(#[trigger] s[i]),
    ensures
        form_encoded(s) == s,
{
    assert(is_ascii_chars(s));
    is_ascii_chars_encode_utf8(s);
    lemma_form_bytes_plain(s, encode_utf8(s));
}

/// The query string of the parameters, in the given order.
pub fn query_string(params: &Vec<(String, String)>) -> (r: String)
    ensures
        r@ == query_text(pairs_view(params@)),
{
    let mut parts: Vec<String> = Vec::new();
    let mut i: usize = 0;
    while i < params.len()
        invariant
            i <= params@.len(),
            texts(parts@) == pairs_view(params@.subrange(0, i as int)).map_values(
                |p: (Seq<char>, Seq<char>)| query_pair(p.0, p.1),
            ),
        decreases params.len() - i,
    {
        let mut part = form_encode(params[i].0.as_str());
        part.append("=");
        let value = form_encode(params[i].1.as_str());
        part.append(value.as_str());
        proof {
            reveal_strlit("=");
            assert("="@ =~= seq!['=']);
        }
        let ghost before = parts@;
        parts.push(part);
        proof {
            assert(params@.subrange(0, i + 1) =~= params@.subrange(0, i as int).push(params@[i as int]));
            assert(texts(parts@) =~= texts(before).push(part@));
            assert(pairs_view(params@.subrange(0, i + 1)).map_values(
                |p: (Seq<char>, Seq<char>)| query_pair(p.0, p.1),
            ) =~= pairs_view(params@.subrange(0, i as int)).map_values(
                |p: (Seq<char>, Seq<char>)| query_pair(p.0, p.1),
            ).push(part@));
        }
        i = i + 1;
    }
    assert(params@.subrange(0, params@.len() as int) =~= params@);
    proof {
        reveal_strlit("&");
        assert("&"@ =~= seq!['&']);
    }
    join_texts(&parts, "&")
}

/// The characters of an optional string.
pub open spec fn opt_text(o: Option<String>) -> Option<Seq<char>> {
    match o {
        Some(s) => Some(s@),
        None => None,
    }
}

/// A full URL: the resolved address, then `?` and the query string when there
/// are query parameters.
pub open spec fn request_url(base: Seq<char>, query: Option<Seq<(Seq<char>, Seq<char>)>>) -> Seq<char> {
    match query {
        Some(pairs) => base + seq!['?'] + query_text(pairs),
        None => base,
    }
}

/// The `Authorization` header value that carries a bearer token.
pub open spec fn bearer(token: Seq<char>) -> Seq<char> {
    seq!['B', 'e', 'a', 'r', 'e', 'r', ' '] + token
}

/// The content type of a JSON payload.
pub open spec fn json_content_type() -> Seq<char> {
    "application/json"@
}

/// `r` carries `method`, the URL `base` with the query string of `query`
/// when there is one, the bearer token, the JSON payload `body` with its
/// content type when there is one, and `expect`.
pub open spec fn assembled(
    r: HttpRequest,
    base: Seq<char>,
    token: Seq<char>,
    method: Method,
    query: Option<Seq<(Seq<char>, Seq<char>)>>,
    body: Option<Seq<char>>,
    expect: Expect,
) -> bool {
    &&& r.method == method
    &&& r.url@ == request_url(base, query)
    &&& r.authorization@ == bearer(token)
    &&& opt_text(r.body) == body
    &&& opt_text(r.content_type) == (if body is Some { Some(json_content_type()) } else { None })
    &&& r.expect == expect
}

impl HttpRequest {
    /// The request for `method` on the resolved URL `base`, authorized by
    /// `token`, with the query parameters and JSON payload given.
    pub fn assemble(
        base: String,
        token: &str,
        method: Method,
        params: Option<Vec<(String, String)>>,
        body: Option<String>,
        expect: Expect,
    ) -> (r: HttpRequest)
        ensures
            assembled(
                r,
                base@,
                token@,
                method,
                match params { Some(p) => Some(pairs_view(p@)), None => None },
                opt_text(body),
                expect,
            ),
    {
        let url = match params {
            Some(p) => {
                let q = query_string(&p);
                let mut u = base;
                u.append("?");
                u.append(q.as_str());
                proof {
                    reveal_strlit("?");
                    assert("?"@ =~= seq!['?']);
                }
                u
            },
            None => base,
        };
        let mut authorization = String::from_str("Bearer ");
        authorization.append(token);
        proof {
            reveal_strlit("Bearer ");
            assert("Bearer "@ =~= seq!['B', 'e', 'a', 'r', 'e', 'r', ' ']);
        }
        let content_type = match body {
            Some(_) => Some(String::from_str("application/json")),
            None => None,
        };
        HttpRequest { method, url, authorization, content_type, body, expect }
    }
}

} // verus!
