//! The fixed set of request methods and its dispatch from text.

use vstd::prelude::*;
use crate::text::str_equal;

verus! {

/// A request method that this library issues.
#[derive(Clone, Copy, Debug, PartialEq, Eq, Structural)]
pub enum HttpMethod {
    Get,
    Post,
    Put,
    Delete,
    Patch,
}

/// The upper-case name of each method.
pub open spec fn method_name_spec(m: HttpMethod) -> Seq<char> {
    match m {
        HttpMethod::Get => "GET"@,
        HttpMethod::Post => "POST"@,
        HttpMethod::Put => "PUT"@,
        HttpMethod::Delete => "DELETE"@,
        HttpMethod::Patch => "PATCH"@,
    }
}

/// The method whose upper-case name is exactly `u`, if any.
pub open spec fn method_from_upper_spec(u: Seq<char>) -> Option<HttpMethod> {
    if u == "GET"@ {
        Some(HttpMethod::Get)
    } else if u == "POST"@ {
        Some(HttpMethod::Post)
    } else if u == "PUT"@ {
        Some(HttpMethod::Put)
    } else if u == "DELETE"@ {
        Some(HttpMethod::Delete)
    } else if u == "PATCH"@ {
        Some(HttpMethod::Patch)
    } else {
        None
    }
}

impl HttpMethod {
    /// The method's upper-case name.
    pub fn name(&self) -> (r: &'static str)
        ensures
            r@ == method_name_spec(*self),
    {
        match self {
            HttpMethod::Get => "GET",
            HttpMethod::Post => "POST",
            HttpMethod::Put => "PUT",
            HttpMethod::Delete => "DELETE",
            HttpMethod::Patch => "PATCH",
        }
    }
}

/// Dispatch on an already upper-cased method name.
pub fn method_from_upper(u: &str) -> (r: Option<HttpMethod>)
    ensures
        r == method_from_upper_spec(u@),
{
    if str_equal(u, "GET") {
        Some(HttpMethod::Get)
    } else if str_equal(u, "POST") {
        Some(HttpMethod::Post)
    } else if str_equal(u, "PUT") {
        Some(HttpMethod::Put)
    } else if str_equal(u, "DELETE") {
        Some(HttpMethod::Delete)
    } else if str_equal(u, "PATCH") {
        Some(HttpMethod::Patch)
    } else {
        None
    }
}

/// What `str::to_uppercase` returns on a string: upper case as Unicode
/// defines it, a function of the characters alone.
pub uninterp spec fn upper_of(s: Seq<char>) -> Seq<char>;

/// Relies on `str::to_uppercase`: the upper-cased copy of `s`.
#[verifier::external_body]
fn to_uppercase(s: &str) -> (r: String)
    ensures
        r@ == upper_of(s@),
{
    s.to_uppercase()
}

/// The method named by `s` in any casing: `s` is upper-cased, then
/// matched against the fixed set of names.
pub fn parse_method(s: &str) -> (r: Option<HttpMethod>)
    ensures
        r == method_from_upper_spec(upper_of(s@)),
{
    let u = to_uppercase(s);
    method_from_upper(u.as_str())
}

/// Dispatch is total on the fixed set: each method's own name selects
/// that method and no other.
pub proof fn lemma_name_selects_method(m: HttpMethod)
    ensures
        method_from_upper_spec(method_name_spec(m)) == Some(m),
{
    reveal_strlit("GET");
    reveal_strlit("POST");
    reveal_strlit("PUT");
    reveal_strlit("DELETE");
    reveal_strlit("PATCH");
    assert("GET"@.len() == 3 && "GET"@[0] == 'G');
    assert("POST"@.len() == 4);
    assert("PUT"@.len() == 3 && "PUT"@[0] == 'P');
    assert("DELETE"@.len() == 6);
    assert("PATCH"@.len() == 5);
}

/// Dispatch succeeds exactly on the names of the fixed set: any other name
/// is refused.
pub proof fn lemma_dispatch_exactly_on_names(u: Seq<char>)
    ensures
        method_from_upper_spec(u) is Some <==> exists|m: HttpMethod| method_name_spec(m) == u,
        method_from_upper_spec(u) matches Some(m) ==> method_name_spec(m) == u,
{
    if method_from_upper_spec(u) is Some {
        let m = method_from_upper_spec(u).unwrap();
        assert(method_name_spec(m) == u);
    }
    if exists|m: HttpMethod| method_name_spec(m) == u {
        let m = choose|m: HttpMethod| method_name_spec(m) == u;
        lemma_name_selects_method(m);
    }
}

} // verus!
