//! From a transport response to plain data.

use vstd::prelude::*;
use crate::headers::{flatten_headers, last_value, pairs_view, raw_view, unique_names};
use crate::request::RequestError;
use crate::transport::{error_text, header_entries};

verus! {

/// A response as plain data: status code, body text and one value per
/// header name.
pub struct ApiResponse {
    pub status: u16,
    pub body: String,
    pub headers: Vec<(String, String)>,
}

/// The part of a response that is known before its body is read.
pub struct ResponseHead {
    pub status: u16,
    pub headers: Vec<(String, String)>,
}

/// `h` holds, once per name, the last value that `raw` gives for it.
pub open spec fn flattened_from(h: Seq<(Seq<char>, Seq<char>)>, raw: Seq<(Seq<char>, Seq<char>)>) -> bool {
    &&& unique_names(h)
    &&& forall|k: Seq<char>| last_value(h, k) == last_value(raw, k)
}

proof fn lemma_last_value_found(s: Seq<(Seq<char>, Seq<char>)>, k: Seq<char>)
    requires
        last_value(s, k) is Some,
    ensures
        exists|j: int| 0 <= j < s.len() && s[j] == (k, last_value(s, k).unwrap()),
    decreases s.len(),
{
    if s.last().0 != k {
        let d = s.drop_last();
        lemma_last_value_found(d, k);
        let j = choose|j: int| 0 <= j < d.len() && d[j] == (k, last_value(d, k).unwrap());
        assert(s[j] == d[j]);
    } else {
        assert(s[s.len() - 1] == (k, last_value(s, k).unwrap()));
    }
}

/// Flattening keeps exactly one entry for each name that the raw headers
/// hold, whatever the number of its occurrences, and that entry carries the
/// value of the last occurrence.
pub proof fn lemma_one_entry_per_name(
    h: Seq<(Seq<char>, Seq<char>)>,
    raw: Seq<(Seq<char>, Seq<char>)>,
    k: Seq<char>,
    v: Seq<char>,
)
    requires
        flattened_from(h, raw),
        last_value(raw, k) == Some(v),
    ensures
        exists|j: int| 0 <= j < h.len() && h[j] == (k, v),
        forall|i: int, j: int|
            0 <= i < h.len() && 0 <= j < h.len() && h[i].0 == k && h[j].0 == k ==> i == j,
{
    assert(last_value(h, k) == Some(v));
    lemma_last_value_found(h, k);
}

/// The head that a status code and the transport's header entries make.
pub fn normalize_head(status: u16, raw: &Vec<(String, Option<String>)>) -> (r: ResponseHead)
    ensures
        r.status == status,
        flattened_from(pairs_view(r.headers@), raw_view(raw@)),
{
    ResponseHead { status, headers: flatten_headers(raw) }
}

/// Reads the status code and headers of a transport response. The status
/// is a real one, never 0; each header name appears once.
pub fn read_head(resp: &reqwest::Response) -> (r: ResponseHead)
    ensures
        100 <= r.status <= 999,
        unique_names(pairs_view(r.headers@)),
{
    let status = resp.status().as_u16();
    let raw = header_entries(resp);
    normalize_head(status, &raw)
}

/// The outcome of a call once the body has been read: the full response, or
/// the transport's failure to deliver the body.
pub fn finish_response(head: ResponseHead, body: Result<String, String>) -> (r: Result<
    ApiResponse,
    RequestError,
>)
    ensures
        match body {
            Ok(b) => r == Ok::<ApiResponse, RequestError>(
                ApiResponse { status: head.status, body: b, headers: head.headers },
            ),
            Err(m) => r == Err::<ApiResponse, RequestError>(RequestError::Transport(m)),
        },
{
    match body {
        Ok(b) => Ok(ApiResponse { status: head.status, body: b, headers: head.headers }),
        Err(m) => Err(RequestError::Transport(m)),
    }
}

/// The error reported when the transport fails: its description, never
/// empty, as a transport failure.
pub fn transport_failure(e: &reqwest::Error) -> (r: RequestError)
    ensures
        r matches RequestError::Transport(m) && m@.len() > 0,
{
    RequestError::Transport(error_text(e))
}

} // verus!
