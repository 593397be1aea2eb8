//! Header lists: the default `Content-Type` on outgoing requests and the
//! flattening of response headers to one value per name.

use vstd::prelude::*;
use crate::text::{ascii_ci_eq, eq_ignore_ascii_case};

verus! {

/// A header list as pairs of character sequences.
pub open spec fn pairs_view(v: Seq<(String, String)>) -> Seq<(Seq<char>, Seq<char>)> {
    v.map_values(|p: (String, String)| (p.0@, p.1@))
}

/// Response headers as read from the transport: a value that is not visible
/// text is absent, and reads as the empty string.
pub open spec fn raw_view(v: Seq<(String, Option<String>)>) -> Seq<(Seq<char>, Seq<char>)> {
    v.map_values(
        |p: (String, Option<String>)|
            (
                p.0@,
                match p.1 {
                    Some(x) => x@,
                    None => Seq::<char>::empty(),
                },
            ),
    )
}

/// Some header of `h` is named `name`, ignoring ASCII case.
pub open spec fn has_name_ci(h: Seq<(Seq<char>, Seq<char>)>, name: Seq<char>) -> bool {
    exists|i: int| 0 <= i < h.len() && ascii_ci_eq(#[trigger] h[i].0, name)
}

/// The headers sent with a request: those given, plus
/// `Content-Type: application/json` when a body is sent and no header of
/// that name (in any ASCII case) was given.
pub open spec fn assembled_spec(h: Seq<(Seq<char>, Seq<char>)>, has_body: bool) -> Seq<
    (Seq<char>, Seq<char>),
> {
    if has_body && !has_name_ci(h, "Content-Type"@) {
        h.push(("Content-Type"@, "application/json"@))
    } else {
        h
    }
}

/// No two entries share a name.
pub open spec fn unique_names(s: Seq<(Seq<char>, Seq<char>)>) -> bool {
    forall|i: int, j: int| 0 <= i < j < s.len() ==> #[trigger] s[i].0 != #[trigger] s[j].0
}

/// The value of the last entry named `k`, if any.
pub open spec fn last_value(s: Seq<(Seq<char>, Seq<char>)>, k: Seq<char>) -> Option<Seq<char>>
    decreases s.len(),
{
    if s.len() == 0 {
        None
    } else if s.last().0 == k {
        Some(s.last().1)
    } else {
        last_value(s.drop_last(), k)
    }
}

/// Whether `headers` holds a header named `name`, ignoring ASCII case.
pub fn has_header(headers: &Vec<(String, String)>, name: &str) -> (r: bool)
    ensures
        r == has_name_ci(pairs_view(headers@), name@),
{
    let mut i: usize = 0;
    while i < headers.len()
        invariant
            i <= headers@.len(),
            forall|j: int| 0 <= j < i ==> !ascii_ci_eq(#[trigger] headers@[j].0@, name@),
        decreases headers@.len() - i,
    {
        if eq_ignore_ascii_case(headers[i].0.as_str(), name) {
            assert(ascii_ci_eq(pairs_view(headers@)[i as int].0, name@));
            return true;
        }
        i = i + 1;
    }
    assert forall|j: int| 0 <= j < headers@.len() implies !ascii_ci_eq(
        #[trigger] pairs_view(headers@)[j].0,
        name@,
    ) by {
        assert(pairs_view(headers@)[j].0 == headers@[j].0@);
    }
    false
}

/// The headers to send: the given ones (none when absent), with
/// `Content-Type: application/json` added when a body is sent and no
/// `Content-Type` header was given in any case. A given `Content-Type` is
/// kept unchanged and never duplicated.
pub fn assemble_headers(headers: Option<Vec<(String, String)>>, has_body: bool) -> (r: Vec<
    (String, String),
>)
    ensures
        pairs_view(r@) == assembled_spec(
            match headers {
                Some(h) => pairs_view(h@),
                None => Seq::empty(),
            },
            has_body,
        ),
{
    let mut h = match headers {
        Some(h) => h,
        None => Vec::new(),
    };
    assert(pairs_view(Seq::<(String, String)>::empty()) =~= Seq::empty());
    if has_body && !has_header(&h, "Content-Type") {
        let ghost before = h@;
        h.push(("Content-Type".to_string(), "application/json".to_string()));
        assert(pairs_view(h@) =~= pairs_view(before).push(("Content-Type"@, "application/json"@)));
    }
    h
}

/// The default `Content-Type`: with a body and no `Content-Type` header in
/// any case, `Content-Type: application/json` is added; a given one is kept
/// unchanged and not duplicated; without a body nothing is added.
pub proof fn lemma_content_type_default(h: Seq<(Seq<char>, Seq<char>)>, has_body: bool)
    ensures
        has_body && !has_name_ci(h, "Content-Type"@) ==> {
            let a = assembled_spec(h, has_body);
            &&& a.len() == h.len() + 1
            &&& a.subrange(0, h.len() as int) == h
            &&& a.last() == ("Content-Type"@, "application/json"@)
            &&& has_name_ci(a, "Content-Type"@)
        },
        has_name_ci(h, "Content-Type"@) ==> assembled_spec(h, has_body) == h,
        !has_body ==> assembled_spec(h, has_body) == h,
{
    if has_body && !has_name_ci(h, "Content-Type"@) {
        let a = assembled_spec(h, has_body);
        assert(a.subrange(0, h.len() as int) =~= h);
        assert(ascii_ci_eq(a[h.len() as int].0, "Content-Type"@));
    }
}

proof fn lemma_last_value_at(s: Seq<(Seq<char>, Seq<char>)>, j: int)
    requires
        unique_names(s),
        0 <= j < s.len(),
    ensures
        last_value(s, s[j].0) == Some(s[j].1),
    decreases s.len(),
{
    if j < s.len() - 1 {
        assert(s[j].0 != s[s.len() - 1].0);
        let d = s.drop_last();
        assert(d[j] == s[j]);
        assert forall|a: int, b: int| 0 <= a < b < d.len() implies #[trigger] d[a].0
            != #[trigger] d[b].0 by {
            assert(d[a] == s[a] && d[b] == s[b]);
        }
        lemma_last_value_at(d, j);
    }
}

proof fn lemma_last_value_absent(s: Seq<(Seq<char>, Seq<char>)>, k: Seq<char>)
    requires
        forall|j: int| 0 <= j < s.len() ==> (#[trigger] s[j]).0 != k,
    ensures
        last_value(s, k) is None,
    decreases s.len(),
{
    if s.len() > 0 {
        let d = s.drop_last();
        assert forall|j: int| 0 <= j < d.len() implies (#[trigger] d[j]).0 != k by {
            assert(d[j] == s[j]);
        }
        lemma_last_value_absent(d, k);
    }
}

/// The position in `out` of the entry named `name`, if any.
fn find_name(out: &Vec<(String, String)>, name: &String) -> (r: Option<usize>)
    ensures
        match r {
            Some(j) => j < out@.len() && out@[j as int].0@ == name@,
            None => forall|j: int| 0 <= j < out@.len() ==> (#[trigger] out@[j]).0@ != name@,
        },
{
    let mut j: usize = 0;
    while j < out.len()
        invariant
            j <= out@.len(),
            forall|a: int| 0 <= a < j ==> (#[trigger] out@[a]).0@ != name@,
        decreases out@.len() - j,
    {
        if out[j].0 == *name {
            return Some(j);
        }
        j = j + 1;
    }
    None
}

/// Response headers with one entry per name. Where a name occurs more than
/// once the last value wins; a value that is not visible text becomes the
/// empty string.
pub fn flatten_headers(raw: &Vec<(String, Option<String>)>) -> (r: Vec<(String, String)>)
    ensures
        unique_names(pairs_view(r@)),
        forall|k: Seq<char>| last_value(pairs_view(r@), k) == last_value(raw_view(raw@), k),
{
    let mut out: Vec<(String, String)> = Vec::new();
    let mut i: usize = 0;
    assert(pairs_view(out@) =~= Seq::empty());
    assert(raw_view(raw@).take(0) =~= Seq::empty());
    while i < raw.len()
        invariant
            i <= raw@.len(),
            unique_names(pairs_view(out@)),
            forall|k: Seq<char>|
                last_value(pairs_view(out@), k) == last_value(raw_view(raw@).take(i as int), k),
        decreases raw@.len() - i,
    {
        let name = raw[i].0.clone();
        let value = match &raw[i].1 {
            Some(v) => v.clone(),
            None => String::new(),
        };
        let ghost old_out = pairs_view(out@);
        let ghost entry = (name@, value@);
        let ghost taken = raw_view(raw@).take(i as int + 1);
        assert(taken.drop_last() =~= raw_view(raw@).take(i as int));
        assert(taken.last() == entry);
        match find_name(&out, &name) {
            Some(j) => {
                out.set(j, (name, value));
                let ghost new_out = pairs_view(out@);
                assert(new_out =~= old_out.update(j as int, entry));
                assert forall|a: int, b: int| 0 <= a < b < new_out.len() implies #[trigger] new_out[a].0
                    != #[trigger] new_out[b].0 by {
                    assert(old_out[a].0 == new_out[a].0 && old_out[b].0 == new_out[b].0);
                }
                assert forall|k: Seq<char>|
                    last_value(new_out, k) == last_value(taken, k) by {
                    if k == entry.0 {
                        lemma_last_value_at(new_out, j as int);
                    } else if exists|a: int| 0 <= a < new_out.len() && new_out[a].0 == k {
                        let a = choose|a: int| 0 <= a < new_out.len() && new_out[a].0 == k;
                        lemma_last_value_at(new_out, a);
                        lemma_last_value_at(old_out, a);
                    } else {
                        lemma_last_value_absent(new_out, k);
                        assert forall|a: int| 0 <= a < old_out.len() implies (#[trigger] old_out[a]).0
                            != k by {
                            assert(old_out[a].0 == new_out[a].0);
                        }
                        lemma_last_value_absent(old_out, k);
                    }
                }
            },
            None => {
                out.push((name, value));
                let ghost new_out = pairs_view(out@);
                assert(new_out =~= old_out.push(entry));
                assert(new_out.drop_last() =~= old_out);
                assert forall|a: int, b: int| 0 <= a < b < new_out.len() implies #[trigger] new_out[a].0
                    != #[trigger] new_out[b].0 by {
                    if b == new_out.len() - 1 {
                        assert(old_out[a].0 == out@[a].0@);
                    } else {
                        assert(old_out[a] == new_out[a] && old_out[b] == new_out[b]);
                    }
                }
                assert forall|k: Seq<char>|
                    last_value(new_out, k) == last_value(taken, k) by {
                    assert(new_out.last() == entry);
                    assert(last_value(old_out, k) == last_value(taken.drop_last(), k));
                }
            },
        }
        i = i + 1;
    }
    assert(raw_view(raw@).take(raw@.len() as int) =~= raw_view(raw@));
    out
}

} // verus!
