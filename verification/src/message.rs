//! Plain-value models of HTTP requests and responses.
//!
//! The runtime hands the library a request lowered to plain values: the
//! method as text, the version, the URI split into its components, and the
//! headers as name/value pairs with the names in lower case (the HTTP layer
//! produces them that way). Responses built here are raised back to wire
//! form by the runtime.
//!
//! Each model type has a mathematical view over sequences of characters;
//! every contract in the crate speaks of those views.

use vstd::prelude::*;
use vstd::string::StringExecFns;

verus! {

#[derive(Clone, Copy, Debug, PartialEq, Eq, Structural)]
pub enum HttpVersion {
    H1,
    H2,
}

/// A URI split into components. An absolute-form URI carries a scheme and a
/// host; an origin-form URI carries neither; an authority-form URI (CONNECT)
/// carries a host and usually a port, with an empty path.
#[derive(Clone, Debug)]
pub struct UriModel {
    pub scheme: Option<String>,
    pub host: Option<String>,
    pub port: Option<u16>,
    pub path: String,
    pub query: Option<String>,
}

pub struct UriView {
    pub scheme: Option<Seq<char>>,
    pub host: Option<Seq<char>>,
    pub port: Option<u16>,
    pub path: Seq<char>,
    pub query: Option<Seq<char>>,
}

impl View for UriModel {
    type V = UriView;

    open spec fn view(&self) -> UriView {
        UriView {
            scheme: (match self.scheme {
                Some(s) => Some(s@),
                None => None,
            }),
            host: (match self.host {
                Some(h) => Some(h@),
                None => None,
            }),
            port: self.port,
            path: self.path@,
            query: (match self.query {
                Some(q) => Some(q@),
                None => None,
            }),
        }
    }
}

/// Headers at the view level: a sequence of (name, value) character strings.
pub type HeaderSeq = Seq<(Seq<char>, Seq<char>)>;

/// The view of executable headers.
pub open spec fn headers_view(hs: Seq<(String, String)>) -> HeaderSeq {
    Seq::new(hs.len(), |i: int| (hs[i].0@, hs[i].1@))
}

#[derive(Clone, Debug)]
pub struct RequestModel {
    pub method: String,
    pub version: HttpVersion,
    pub uri: UriModel,
    pub headers: Vec<(String, String)>,
}

pub struct RequestView {
    pub method: Seq<char>,
    pub version: HttpVersion,
    pub uri: UriView,
    pub headers: HeaderSeq,
}

impl View for RequestModel {
    type V = RequestView;

    open spec fn view(&self) -> RequestView {
        RequestView {
            method: self.method@,
            version: self.version,
            uri: self.uri@,
            headers: headers_view(self.headers@),
        }
    }
}

#[derive(Clone, Debug)]
pub struct ResponseModel {
    pub status: u16,
    pub headers: Vec<(String, String)>,
    pub body: String,
}

pub struct ResponseView {
    pub status: u16,
    pub headers: HeaderSeq,
    pub body: Seq<char>,
}

impl View for ResponseModel {
    type V = ResponseView;

    open spec fn view(&self) -> ResponseView {
        ResponseView {
            status: self.status,
            headers: headers_view(self.headers@),
            body: self.body@,
        }
    }
}

impl RequestView {
    pub open spec fn is_connect(self) -> bool {
        self.method == "CONNECT"@
    }
}

/// The value of the first header named `name`, as `HeaderMap::get` returns it.
pub open spec fn spec_first_header(hs: HeaderSeq, name: Seq<char>) -> Option<Seq<char>>
    decreases hs.len(),
{
    if hs.len() == 0 {
        None
    } else if hs[0].0 == name {
        Some(hs[0].1)
    } else {
        spec_first_header(hs.drop_first(), name)
    }
}

pub open spec fn spec_has_header(hs: HeaderSeq, name: Seq<char>) -> bool {
    exists|i: int| 0 <= i < hs.len() && (#[trigger] hs[i]).0 == name
}

/// The headers with every entry named `name` removed.
pub open spec fn spec_without_header(hs: HeaderSeq, name: Seq<char>) -> HeaderSeq
    decreases hs.len(),
{
    if hs.len() == 0 {
        Seq::empty()
    } else {
        let rest = spec_without_header(hs.drop_last(), name);
        if hs.last().0 == name {
            rest
        } else {
            rest.push(hs.last())
        }
    }
}

/// The headers with every entry named `name` replaced by a single
/// `name: value` entry at the end, as `HeaderMap::insert` leaves them
/// for the lookups this crate does.
pub open spec fn spec_with_header(hs: HeaderSeq, name: Seq<char>, value: Seq<char>) -> HeaderSeq {
    spec_without_header(hs, name).push((name, value))
}

/// A name no other header carries is found in the appended entry.
pub proof fn lemma_first_header_push_fresh(hs: HeaderSeq, n: Seq<char>, v: Seq<char>)
    requires
        !spec_has_header(hs, n),
    ensures
        spec_first_header(hs.push((n, v)), n) == Some(v),
    decreases hs.len(),
{
    if hs.len() == 0 {
        assert(hs.push((n, v))[0] == (n, v));
    } else {
        assert(hs[0] == hs.push((n, v))[0]);
        assert(hs.push((n, v)).drop_first() =~= hs.drop_first().push((n, v)));
        assert forall|i: int|
            0 <= i < hs.drop_first().len() implies (#[trigger] hs.drop_first()[i]).0 != n by {
            assert(hs.drop_first()[i] == hs[i + 1]);
        }
        lemma_first_header_push_fresh(hs.drop_first(), n, v);
    }
}

/// Removing a name leaves no header of that name behind.
pub proof fn lemma_without_header_absent(hs: HeaderSeq, name: Seq<char>)
    ensures
        !spec_has_header(spec_without_header(hs, name), name),
    decreases hs.len(),
{
    if hs.len() > 0 {
        lemma_without_header_absent(hs.drop_last(), name);
    }
}

/// Removing a name that no header carries changes nothing.
pub proof fn lemma_without_header_noop(hs: HeaderSeq, name: Seq<char>)
    requires
        !spec_has_header(hs, name),
    ensures
        spec_without_header(hs, name) =~= hs,
    decreases hs.len(),
{
    if hs.len() > 0 {
        assert(hs.last() == hs[hs.len() - 1]);
        assert forall|i: int|
            0 <= i < hs.drop_last().len() implies (#[trigger] hs.drop_last()[i]).0 != name by {
            assert(hs.drop_last()[i] == hs[i]);
        }
        lemma_without_header_noop(hs.drop_last(), name);
    }
}

/// Removing a name twice is the same as removing it once.
pub proof fn lemma_without_header_idempotent(hs: HeaderSeq, name: Seq<char>)
    ensures
        spec_without_header(spec_without_header(hs, name), name) =~= spec_without_header(hs, name),
{
    lemma_without_header_absent(hs, name);
    lemma_without_header_noop(spec_without_header(hs, name), name);
}

/// A name absent from the headers stays absent when another name is removed.
pub proof fn lemma_without_header_other(hs: HeaderSeq, n2: Seq<char>, n1: Seq<char>)
    requires
        !spec_has_header(hs, n1),
    ensures
        !spec_has_header(spec_without_header(hs, n2), n1),
    decreases hs.len(),
{
    if hs.len() > 0 {
        assert forall|i: int|
            0 <= i < hs.drop_last().len() implies (#[trigger] hs.drop_last()[i]).0 != n1 by {
            assert(hs.drop_last()[i] == hs[i]);
        }
        assert(hs.last() == hs[hs.len() - 1]);
        lemma_without_header_other(hs.drop_last(), n2, n1);
    }
}

/// The value of the first header named `name`, cloned.
pub fn get_header(hs: &Vec<(String, String)>, name: &str) -> (r: Option<String>)
    ensures
        (r matches Some(v) ==> spec_first_header(headers_view(hs@), name@) == Some(v@)),
        (r is None ==> spec_first_header(headers_view(hs@), name@) is None),
{
    let n = hs.len();
    let mut i: usize = 0;
    proof {
        assert(headers_view(hs@).skip(0) =~= headers_view(hs@));
    }
    while i < n
        invariant
            0 <= i <= n,
            n == hs@.len(),
            spec_first_header(headers_view(hs@), name@) == spec_first_header(
                headers_view(hs@).skip(i as int),
                name@,
            ),
        decreases n - i,
    {
        let matches_name = crate::text::str_eq(hs[i].0.as_str(), name);
        proof {
            assert(headers_view(hs@).skip(i as int)[0] == headers_view(hs@)[i as int]);
            assert(headers_view(hs@).skip(i as int).drop_first() =~= headers_view(hs@).skip(
                i + 1,
            ));
        }
        if matches_name {
            return Some(hs[i].1.clone());
        }
        i = i + 1;
    }
    proof {
        assert(headers_view(hs@).skip(n as int) =~= Seq::<(Seq<char>, Seq<char>)>::empty());
    }
    None
}

/// A copy of the headers with every entry named `name` removed.
pub fn without_header(hs: &Vec<(String, String)>, name: &str) -> (r: Vec<(String, String)>)
    ensures
        headers_view(r@) == spec_without_header(headers_view(hs@), name@),
{
    let n = hs.len();
    let mut out: Vec<(String, String)> = Vec::new();
    let mut i: usize = 0;
    proof {
        assert(headers_view(out@) =~= spec_without_header(
            headers_view(hs@).subrange(0, 0),
            name@,
        ));
    }
    while i < n
        invariant
            0 <= i <= n,
            n == hs@.len(),
            headers_view(out@) == spec_without_header(
                headers_view(hs@).subrange(0, i as int),
                name@,
            ),
        decreases n - i,
    {
        proof {
            assert(headers_view(hs@).subrange(0, i + 1).drop_last() =~= headers_view(
                hs@,
            ).subrange(0, i as int));
            assert(headers_view(hs@).subrange(0, i + 1).last() == headers_view(hs@)[i as int]);
        }
        let keep = !crate::text::str_eq(hs[i].0.as_str(), name);
        if keep {
            let ghost old_out = out@;
            out.push((hs[i].0.clone(), hs[i].1.clone()));
            proof {
                assert(headers_view(out@) =~= headers_view(old_out).push(
                    (hs@[i as int].0@, hs@[i as int].1@),
                ));
            }
        }
        i = i + 1;
    }
    proof {
        assert(headers_view(hs@).subrange(0, n as int) =~= headers_view(hs@));
    }
    out
}

/// A copy of the headers with every `name` entry replaced by `name: value`.
pub fn with_header(hs: &Vec<(String, String)>, name: &str, value: &str) -> (r: Vec<
    (String, String),
>)
    ensures
        headers_view(r@) == spec_with_header(headers_view(hs@), name@, value@),
{
    let mut out = without_header(hs, name);
    let ghost stripped = out@;
    out.push((String::from_str(name), String::from_str(value)));
    proof {
        assert(headers_view(out@) =~= headers_view(stripped).push((name@, value@)));
    }
    out
}

} // verus!
