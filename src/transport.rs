//! The HTTP client that carries requests: the items of `reqwest` that the
//! library calls, with what it relies on of each.

use vstd::prelude::*;
use crate::method::HttpMethod;

verus! {

/// A configured HTTP client of `reqwest`.
#[verifier::external_type_specification]
#[verifier::external_body]
pub struct ExClient(reqwest::Client);

/// The builder that configures a `reqwest::Client`.
#[verifier::external_type_specification]
#[verifier::external_body]
pub struct ExClientBuilder(reqwest::ClientBuilder);

/// A request of `reqwest` under construction.
#[verifier::external_type_specification]
#[verifier::external_body]
pub struct ExRequestBuilder(reqwest::RequestBuilder);

/// A response of `reqwest` whose body has not been read yet.
#[verifier::external_type_specification]
#[verifier::external_body]
pub struct ExResponse(reqwest::Response);

/// An error of `reqwest`: client setup or transport failure.
#[verifier::external_type_specification]
#[verifier::external_body]
pub struct ExError(reqwest::Error);

/// A response status code.
#[verifier::external_type_specification]
#[verifier::external_body]
pub struct ExStatusCode(reqwest::StatusCode);

/// Relies on `reqwest::Response::status`: the status line's code.
pub assume_specification[ reqwest::Response::status ](r: &reqwest::Response) -> reqwest::StatusCode;

/// Relies on `StatusCode::as_u16`: the numeric code, which the type keeps
/// within 100 to 999.
pub assume_specification[ reqwest::StatusCode::as_u16 ](s: &reqwest::StatusCode) -> (r: u16)
    ensures
        100 <= r <= 999,
;

/// A client configuration under construction, with the certificate policy
/// that it has been given.
pub struct ClientSetup {
    builder: reqwest::ClientBuilder,
    accepts_invalid: Ghost<bool>,
}

/// A configured client, with the certificate policy it was built with.
pub struct HttpClient {
    client: reqwest::Client,
    accepts_invalid: Ghost<bool>,
}

/// A request handed to the transport, with a record of everything it was
/// given: the client's certificate policy, the method, the URL, the headers
/// in the order they were attached, and the body.
pub struct OutgoingRequest {
    builder: reqwest::RequestBuilder,
    accepts_invalid: Ghost<bool>,
    method: Ghost<HttpMethod>,
    url: Ghost<Seq<char>>,
    headers: Ghost<Seq<(Seq<char>, Seq<char>)>>,
    body: Ghost<Option<Seq<char>>>,
}

impl ClientSetup {
    /// Whether certificates that fail verification will be accepted.
    pub closed spec fn accepts_invalid(&self) -> bool {
        self.accepts_invalid@
    }
}

impl HttpClient {
    /// Whether the client accepts certificates that fail verification.
    pub closed spec fn accepts_invalid(&self) -> bool {
        self.accepts_invalid@
    }
}

impl OutgoingRequest {
    /// Whether the client that carries the request accepts certificates that
    /// fail verification.
    pub closed spec fn accepts_invalid(&self) -> bool {
        self.accepts_invalid@
    }

    /// The request's method.
    pub closed spec fn sent_method(&self) -> HttpMethod {
        self.method@
    }

    /// The URL the request was made for.
    pub closed spec fn sent_url(&self) -> Seq<char> {
        self.url@
    }

    /// The headers attached to the request, in order.
    pub closed spec fn sent_headers(&self) -> Seq<(Seq<char>, Seq<char>)> {
        self.headers@
    }

    /// The request's payload, if one was attached.
    pub closed spec fn sent_body(&self) -> Option<Seq<char>> {
        self.body@
    }

    /// The transport request itself, to be sent.
    pub fn into_builder(self) -> reqwest::RequestBuilder {
        self.builder
    }
}

/// Relies on `reqwest::Client::builder`: a configuration with default
/// settings, which verify certificates.
#[verifier::external_body]
pub(crate) fn client_setup() -> (r: ClientSetup)
    ensures
        !r.accepts_invalid(),
{
    ClientSetup { builder: reqwest::Client::builder(), accepts_invalid: Ghost(false) }
}

/// Relies on `reqwest::ClientBuilder::danger_accept_invalid_certs`: sets
/// whether certificates that fail verification are accepted.
#[verifier::external_body]
pub(crate) fn accept_invalid_certs(s: ClientSetup, accept: bool) -> (r: ClientSetup)
    ensures
        r.accepts_invalid() == accept,
{
    ClientSetup { builder: s.builder.danger_accept_invalid_certs(accept), accepts_invalid: Ghost(accept) }
}

/// Relies on `reqwest::ClientBuilder::build`: the configured client, or the
/// error met while setting up TLS or the resolver.
#[verifier::external_body]
pub(crate) fn build_client(s: ClientSetup) -> (r: Result<HttpClient, reqwest::Error>)
    ensures
        r matches Ok(c) ==> c.accepts_invalid() == s.accepts_invalid(),
{
    match s.builder.build() {
        Ok(client) => Ok(HttpClient { client, accepts_invalid: s.accepts_invalid }),
        Err(e) => Err(e),
    }
}

/// Relies on `reqwest::Client::get`: a GET request to `url`, with no header
/// and no body yet.
#[verifier::external_body]
pub(crate) fn get(c: &HttpClient, url: &str) -> (r: OutgoingRequest)
    ensures
        fresh_request(r, c, HttpMethod::Get, url@),
{
    OutgoingRequest {
        builder: c.client.get(url),
        accepts_invalid: Ghost(c.accepts_invalid@),
        method: Ghost(HttpMethod::Get),
        url: Ghost(url@),
        headers: Ghost(Seq::empty()),
        body: Ghost(None),
    }
}

/// Relies on `reqwest::Client::post`: a POST request to `url`, with no
/// header and no body yet.
#[verifier::external_body]
pub(crate) fn post(c: &HttpClient, url: &str) -> (r: OutgoingRequest)
    ensures
        fresh_request(r, c, HttpMethod::Post, url@),
{
    OutgoingRequest {
        builder: c.client.post(url),
        accepts_invalid: Ghost(c.accepts_invalid@),
        method: Ghost(HttpMethod::Post),
        url: Ghost(url@),
        headers: Ghost(Seq::empty()),
        body: Ghost(None),
    }
}

/// Relies on `reqwest::Client::put`: a PUT request to `url`, with no header
/// and no body yet.
#[verifier::external_body]
pub(crate) fn put(c: &HttpClient, url: &str) -> (r: OutgoingRequest)
    ensures
        fresh_request(r, c, HttpMethod::Put, url@),
{
    OutgoingRequest {
        builder: c.client.put(url),
        accepts_invalid: Ghost(c.accepts_invalid@),
        method: Ghost(HttpMethod::Put),
        url: Ghost(url@),
        headers: Ghost(Seq::empty()),
        body: Ghost(None),
    }
}

/// Relies on `reqwest::Client::delete`: a DELETE request to `url`, with no
/// header and no body yet.
#[verifier::external_body]
pub(crate) fn delete(c: &HttpClient, url: &str) -> (r: OutgoingRequest)
    ensures
        fresh_request(r, c, HttpMethod::Delete, url@),
{
    OutgoingRequest {
        builder: c.client.delete(url),
        accepts_invalid: Ghost(c.accepts_invalid@),
        method: Ghost(HttpMethod::Delete),
        url: Ghost(url@),
        headers: Ghost(Seq::empty()),
        body: Ghost(None),
    }
}

/// Relies on `reqwest::Client::patch`: a PATCH request to `url`, with no
/// header and no body yet.
#[verifier::external_body]
pub(crate) fn patch(c: &HttpClient, url: &str) -> (r: OutgoingRequest)
    ensures
        fresh_request(r, c, HttpMethod::Patch, url@),
{
    OutgoingRequest {
        builder: c.client.patch(url),
        accepts_invalid: Ghost(c.accepts_invalid@),
        method: Ghost(HttpMethod::Patch),
        url: Ghost(url@),
        headers: Ghost(Seq::empty()),
        body: Ghost(None),
    }
}

/// A request just made by `c` for `method` and `url`: nothing attached yet.
pub open spec fn fresh_request(r: OutgoingRequest, c: &HttpClient, method: HttpMethod, url: Seq<char>) -> bool {
    &&& r.accepts_invalid() == c.accepts_invalid()
    &&& r.sent_method() == method
    &&& r.sent_url() == url
    &&& r.sent_headers() == Seq::<(Seq<char>, Seq<char>)>::empty()
    &&& r.sent_body() is None
}

/// Relies on `reqwest::RequestBuilder::header`: adds one header after those
/// already attached; a name or value that HTTP does not allow makes the
/// later send fail.
#[verifier::external_body]
pub(crate) fn with_header(rq: OutgoingRequest, name: &str, value: &str) -> (r: OutgoingRequest)
    ensures
        r.sent_headers() == rq.sent_headers().push((name@, value@)),
        r.accepts_invalid() == rq.accepts_invalid(),
        r.sent_method() == rq.sent_method(),
        r.sent_url() == rq.sent_url(),
        r.sent_body() == rq.sent_body(),
{
    OutgoingRequest {
        builder: rq.builder.header(name, value),
        headers: Ghost(rq.headers@.push((name@, value@))),
        ..rq
    }
}

/// Relies on `reqwest::RequestBuilder::body`: sets the payload, sent as is.
#[verifier::external_body]
pub(crate) fn with_body(rq: OutgoingRequest, body: String) -> (r: OutgoingRequest)
    ensures
        r.sent_body() == Some(body@),
        r.accepts_invalid() == rq.accepts_invalid(),
        r.sent_method() == rq.sent_method(),
        r.sent_url() == rq.sent_url(),
        r.sent_headers() == rq.sent_headers(),
{
    let text = Ghost(body@);
    OutgoingRequest { builder: rq.builder.body(body), body: Ghost(Some(text@)), ..rq }
}

/// Relies on `reqwest::Error`'s `Display`: the error's description, which
/// always starts with a fixed text naming the kind of failure.
#[verifier::external_body]
pub(crate) fn error_text(e: &reqwest::Error) -> (r: String)
    ensures
        r@.len() > 0,
{
    e.to_string()
}

/// Relies on `reqwest::Response::headers`: each header of the response in
/// turn, once per value, with its name and, where the value is visible
/// ASCII, its text.
#[verifier::external_body]
pub(crate) fn header_entries(r: &reqwest::Response) -> Vec<(String, Option<String>)> {
    r.headers()
        .iter()
        .map(|(k, v)| (k.as_str().to_string(), v.to_str().ok().map(|s| s.to_string())))
        .collect()
}

} // verus!
