//! From a request description to a request ready to send.

use vstd::prelude::*;
use crate::headers::{assemble_headers, assembled_spec, pairs_view, unique_names};
use crate::method::{lemma_dispatch_exactly_on_names, lemma_name_selects_method, method_name_spec};
use crate::method::{method_from_upper_spec, parse_method, upper_of, HttpMethod};
use crate::transport::{
    accept_invalid_certs, build_client, client_setup, delete, error_text, get, patch, post, put,
    with_body, with_header, OutgoingRequest,
};

verus! {

/// What a caller asks for: a method name in any casing, an absolute URL,
/// whether to verify the server's certificate (yes when absent), headers
/// (none when absent) and a body sent verbatim (none when absent).
pub struct RequestOptions {
    pub method: String,
    pub url: String,
    pub verify: Option<bool>,
    pub headers: Option<Vec<(String, String)>>,
    pub body: Option<String>,
}

/// A request with every default resolved, ready to hand to the transport.
pub struct PreparedRequest {
    pub method: HttpMethod,
    pub url: String,
    pub accept_invalid_certs: bool,
    pub headers: Vec<(String, String)>,
    pub body: Option<String>,
}

/// Why a request produced no response.
#[derive(Debug)]
pub enum RequestError {
    /// The client could not be set up; the transport's description.
    ClientBuild(String),
    /// The method is not one of GET, POST, PUT, DELETE, PATCH.
    UnsupportedMethod,
    /// Sending the request or reading its response failed; the transport's
    /// description.
    Transport(String),
}

/// The message reported for an unsupported method.
pub open spec fn unsupported_method_text() -> Seq<char> {
    "不支持的HTTP方法"@
}

/// The text that reports each error.
pub open spec fn error_message_spec(e: RequestError) -> Seq<char> {
    match e {
        RequestError::ClientBuild(m) => m@,
        RequestError::UnsupportedMethod => unsupported_method_text(),
        RequestError::Transport(m) => m@,
    }
}

impl RequestError {
    /// The human-readable message of this error.
    pub fn message(&self) -> (r: String)
        ensures
            r@ == error_message_spec(*self),
    {
        match self {
            RequestError::ClientBuild(m) => m.clone(),
            RequestError::UnsupportedMethod => "不支持的HTTP方法".to_string(),
            RequestError::Transport(m) => m.clone(),
        }
    }
}

/// Certificates that fail verification are accepted only when verification
/// is explicitly switched off.
pub open spec fn accepts_invalid_certs(verify: Option<bool>) -> bool {
    verify == Some(false)
}

/// The headers a description asks for, none when absent.
pub open spec fn given_headers(o: RequestOptions) -> Seq<(Seq<char>, Seq<char>)> {
    match o.headers {
        Some(h) => pairs_view(h@),
        None => Seq::empty(),
    }
}

/// The method a description names, if it names one of the fixed set.
pub open spec fn requested_method(o: RequestOptions) -> Option<HttpMethod> {
    method_from_upper_spec(upper_of(o.method@))
}

/// `p` is the request that `o` describes.
pub open spec fn prepared_from(p: PreparedRequest, o: RequestOptions) -> bool {
    &&& requested_method(o) == Some(p.method)
    &&& p.url == o.url
    &&& p.accept_invalid_certs == accepts_invalid_certs(o.verify)
    &&& pairs_view(p.headers@) == assembled_spec(given_headers(o), o.body is Some)
    &&& p.body == o.body
}

/// Header names of a description are unique, as those of a map are.
pub open spec fn well_formed_options(o: RequestOptions) -> bool {
    o.headers matches Some(h) ==> unique_names(pairs_view(h@))
}

/// A body as a character sequence, if there is one.
pub open spec fn body_view(b: Option<String>) -> Option<Seq<char>> {
    match b {
        Some(s) => Some(s@),
        None => None,
    }
}

/// Resolves the defaults of a description: certificate verification, the
/// method and the headers. Fails, with no other effect, exactly when the
/// method is outside the fixed set.
pub fn prepare_request(options: RequestOptions) -> (r: Result<PreparedRequest, RequestError>)
    requires
        well_formed_options(options),
    ensures
        r is Err <==> requested_method(options) is None,
        r is Err ==> r == Err::<PreparedRequest, RequestError>(RequestError::UnsupportedMethod),
        r matches Ok(p) ==> prepared_from(p, options),
{
    let accept_invalid_certs = match options.verify {
        Some(v) => !v,
        None => false,
    };
    let method = match parse_method(options.method.as_str()) {
        Some(m) => m,
        None => {
            return Err(RequestError::UnsupportedMethod);
        },
    };
    let has_body = options.body.is_some();
    let headers = assemble_headers(options.headers, has_body);
    Ok(PreparedRequest { method, url: options.url, accept_invalid_certs, headers, body: options.body })
}

/// `o` is the transport request for `p`: same certificate policy, method,
/// URL, headers in order, and body.
pub open spec fn built_from(o: OutgoingRequest, p: PreparedRequest) -> bool {
    &&& o.accepts_invalid() == p.accept_invalid_certs
    &&& o.sent_method() == p.method
    &&& o.sent_url() == p.url@
    &&& o.sent_headers() == pairs_view(p.headers@)
    &&& o.sent_body() == body_view(p.body)
}

/// `o` is the transport request that `options` describes, every default
/// resolved.
pub open spec fn described_by(o: OutgoingRequest, options: RequestOptions) -> bool {
    &&& o.accepts_invalid() == accepts_invalid_certs(options.verify)
    &&& requested_method(options) == Some(o.sent_method())
    &&& o.sent_url() == options.url@
    &&& o.sent_headers() == assembled_spec(given_headers(options), options.body is Some)
    &&& o.sent_body() == body_view(options.body)
}

/// Builds the transport request for `p`: a client that verifies certificates
/// unless `p` accepts invalid ones, the request for `p`'s method and URL,
/// each of `p`'s headers in order, and its body. The only failure is the
/// client's setup.
pub fn build_request(p: PreparedRequest) -> (r: Result<OutgoingRequest, RequestError>)
    ensures
        r matches Ok(o) ==> built_from(o, p),
        r matches Err(e) ==> e is ClientBuild,
        r matches Err(RequestError::ClientBuild(m)) ==> m@.len() > 0,
{
    let setup = accept_invalid_certs(client_setup(), p.accept_invalid_certs);
    let client = match build_client(setup) {
        Ok(c) => c,
        Err(e) => {
            return Err(RequestError::ClientBuild(error_text(&e)));
        },
    };
    let url = p.url.as_str();
    let mut rq = match p.method {
        HttpMethod::Get => get(&client, url),
        HttpMethod::Post => post(&client, url),
        HttpMethod::Put => put(&client, url),
        HttpMethod::Delete => delete(&client, url),
        HttpMethod::Patch => patch(&client, url),
    };
    let mut i: usize = 0;
    while i < p.headers.len()
        invariant
            i <= p.headers@.len(),
            rq.accepts_invalid() == p.accept_invalid_certs,
            rq.sent_method() == p.method,
            rq.sent_url() == p.url@,
            rq.sent_headers() == pairs_view(p.headers@).take(i as int),
            rq.sent_body() is None,
        decreases p.headers@.len() - i,
    {
        rq = with_header(rq, p.headers[i].0.as_str(), p.headers[i].1.as_str());
        assert(pairs_view(p.headers@).take(i as int + 1) =~= pairs_view(p.headers@).take(
            i as int,
        ).push(pairs_view(p.headers@)[i as int]));
        i = i + 1;
    }
    assert(pairs_view(p.headers@).take(p.headers@.len() as int) =~= pairs_view(p.headers@));
    match p.body {
        Some(b) => Ok(with_body(rq, b)),
        None => Ok(rq),
    }
}

/// Prepares and builds the request that `options` describes. The method is
/// checked before any client is set up, so an unsupported method is
/// reported as such and nothing is built.
pub fn start_request(options: RequestOptions) -> (r: Result<OutgoingRequest, RequestError>)
    requires
        well_formed_options(options),
    ensures
        r matches Ok(o) ==> described_by(o, options),
        r matches Err(RequestError::UnsupportedMethod) <==> requested_method(options) is None,
        r matches Err(e) ==> (e is UnsupportedMethod || e is ClientBuild),
{
    match prepare_request(options) {
        Ok(p) => build_request(p),
        Err(e) => Err(e),
    }
}

/// A description whose method, upper-cased, is the name of `m` is prepared
/// with `m`: each method of the fixed set is dispatched in any casing that
/// upper-cases to its name.
pub proof fn lemma_method_dispatched(o: RequestOptions, m: HttpMethod)
    requires
        upper_of(o.method@) == method_name_spec(m),
    ensures
        requested_method(o) == Some(m),
{
    lemma_name_selects_method(m);
}

/// A description whose method, upper-cased, names none of the fixed set is
/// refused: preparing it fails with the unsupported-method error.
pub proof fn lemma_unknown_method_refused(o: RequestOptions)
    requires
        forall|m: HttpMethod| method_name_spec(m) != upper_of(o.method@),
    ensures
        requested_method(o) is None,
{
    lemma_dispatch_exactly_on_names(upper_of(o.method@));
}

} // verus!
