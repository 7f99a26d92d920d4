//! The request rewriter: what a forward-proxy request must look like before
//! it is sent on to the origin server. Proxy-specific headers are stripped,
//! the Host header is normalized, and the URI is reduced to origin-form.

use vstd::prelude::*;
use vstd::string::StringExecFns;
use crate::errors::ProxyError;
use crate::host::{host_addr, spec_authority};
use crate::labels::AccessLabel;
use crate::message::{
    lemma_without_header_absent, lemma_without_header_idempotent,
    lemma_without_header_noop, lemma_without_header_other, spec_has_header, spec_with_header,
    spec_without_header, with_header, without_header, HeaderSeq, RequestModel, UriModel, UriView,
};
use crate::text::{spec_dec_str, u16_to_decimal};

verus! {

/// Whether a URI's scheme implies TLS on the default port 443.
pub open spec fn spec_is_secure(u: UriView) -> bool {
    match u.scheme {
        Some(s) => s == "wss"@ || s == "https"@,
        None => false,
    }
}

pub fn is_schema_secure(uri: &UriModel) -> (r: bool)
    ensures
        r == spec_is_secure(uri@),
{
    match &uri.scheme {
        Some(s) => {
            let wss = crate::text::str_eq(s.as_str(), "wss");
            let https = crate::text::str_eq(s.as_str(), "https");
            wss || https
        },
        None => false,
    }
}

/// A URI reduced to origin-form: only path and query remain; a URI with an
/// empty path and no query becomes `/`.
pub open spec fn spec_origin_form(u: UriView) -> UriView {
    UriView {
        scheme: None,
        host: None,
        port: None,
        path: (if u.path.len() == 0 && u.query is None {
            "/"@
        } else {
            u.path
        }),
        query: u.query,
    }
}

/// Reducing a URI to origin-form twice is the same as doing it once.
pub proof fn lemma_origin_form_idempotent(u: UriView)
    ensures
        spec_origin_form(spec_origin_form(u)) == spec_origin_form(u),
{
    reveal_strlit("/");
}

pub fn origin_form(uri: &UriModel) -> (r: UriModel)
    ensures
        r@ == spec_origin_form(uri@),
{
    let path = if uri.path.as_str().is_empty() && uri.query.is_none() {
        String::from_str("/")
    } else {
        uri.path.clone()
    };
    UriModel { scheme: None, host: None, port: None, path, query: uri.query.clone() }
}

/// The canonical Host header value for a URI with host `h`: `h` when the
/// port is absent or is the scheme's default (443 for https/wss, 80
/// otherwise), `h:port` when it is not.
pub open spec fn spec_canonical_host(u: UriView, h: Seq<char>) -> Seq<char> {
    let effective = (match u.port {
        Some(p) => {
            if p == 443 && spec_is_secure(u) {
                None
            } else if p == 80 && !spec_is_secure(u) {
                None
            } else {
                Some(p)
            }
        },
        None => None,
    });
    match effective {
        Some(p) => h + ":"@ + spec_dec_str(p as int),
        None => h,
    }
}

/// The headers of a rewritten forward-proxy request: `Proxy-Authorization`
/// and `Proxy-Connection` removed, `Host` replaced by `hostv`.
pub open spec fn spec_rewritten_headers(hs: HeaderSeq, hostv: Seq<char>) -> HeaderSeq {
    spec_with_header(
        spec_without_header(spec_without_header(hs, "proxy-authorization"@), "proxy-connection"@),
        "host"@,
        hostv,
    )
}

/// Appending a header of another name keeps an absent name absent.
proof fn lemma_push_other_still_absent(hs: HeaderSeq, m: Seq<char>, v: Seq<char>, n: Seq<char>)
    requires
        !spec_has_header(hs, n),
        m != n,
    ensures
        !spec_has_header(hs.push((m, v)), n),
{
    assert forall|i: int|
        0 <= i < hs.push((m, v)).len() implies (#[trigger] hs.push((m, v))[i]).0 != n by {
        if i < hs.len() {
            assert(hs.push((m, v))[i] == hs[i]);
        }
    }
}

/// Removing the name just appended removes only it.
proof fn lemma_without_push_same(hs: HeaderSeq, n: Seq<char>, v: Seq<char>)
    ensures
        spec_without_header(hs.push((n, v)), n) =~= spec_without_header(hs, n),
{
    assert(hs.push((n, v)).drop_last() =~= hs);
    assert(hs.push((n, v)).last() == (n, v));
}

/// Rewritten headers carry no proxy-specific header and exactly one final
/// Host entry holding the canonical value.
pub proof fn lemma_rewritten_headers_clean(hs: HeaderSeq, hostv: Seq<char>)
    ensures
        !spec_has_header(spec_rewritten_headers(hs, hostv), "proxy-authorization"@),
        !spec_has_header(spec_rewritten_headers(hs, hostv), "proxy-connection"@),
        crate::message::spec_first_header(spec_rewritten_headers(hs, hostv), "host"@) == Some(
            hostv,
        ),
        spec_rewritten_headers(hs, hostv).last() == ("host"@, hostv),
{
    reveal_strlit("proxy-authorization");
    reveal_strlit("proxy-connection");
    reveal_strlit("host");
    assert("host"@.len() == 4 && "proxy-authorization"@.len() == 19 && "proxy-connection"@.len()
        == 16);
    let a = spec_without_header(hs, "proxy-authorization"@);
    let b = spec_without_header(a, "proxy-connection"@);
    let c = spec_without_header(b, "host"@);
    lemma_without_header_absent(hs, "proxy-authorization"@);
    lemma_without_header_other(a, "proxy-connection"@, "proxy-authorization"@);
    lemma_without_header_other(b, "host"@, "proxy-authorization"@);
    lemma_push_other_still_absent(c, "host"@, hostv, "proxy-authorization"@);
    lemma_without_header_absent(a, "proxy-connection"@);
    lemma_without_header_other(b, "host"@, "proxy-connection"@);
    lemma_push_other_still_absent(c, "host"@, hostv, "proxy-connection"@);
    lemma_without_header_absent(b, "host"@);
    crate::message::lemma_first_header_push_fresh(c, "host"@, hostv);
    let r = spec_rewritten_headers(hs, hostv);
    assert(r.last() == ("host"@, hostv));
}

/// Rewriting headers is idempotent.
pub proof fn lemma_header_rewrite_idempotent(hs: HeaderSeq, hostv: Seq<char>)
    ensures
        spec_rewritten_headers(spec_rewritten_headers(hs, hostv), hostv) =~= spec_rewritten_headers(
            hs,
            hostv,
        ),
{
    reveal_strlit("proxy-authorization");
    reveal_strlit("proxy-connection");
    reveal_strlit("host");
    let a = spec_without_header(hs, "proxy-authorization"@);
    let b = spec_without_header(a, "proxy-connection"@);
    let c = spec_without_header(b, "host"@);
    let r1 = spec_rewritten_headers(hs, hostv);
    lemma_rewritten_headers_clean(hs, hostv);
    lemma_without_header_noop(r1, "proxy-authorization"@);
    lemma_without_header_noop(r1, "proxy-connection"@);
    lemma_without_push_same(c, "host"@, hostv);
    lemma_without_header_idempotent(b, "host"@);
    assert(spec_without_header(spec_without_header(r1, "proxy-authorization"@),
        "proxy-connection"@) =~= r1);
    assert(spec_without_header(r1, "host"@) =~= c);
}

/// Rewrite a forward-proxy request for the wire to the origin: strip
/// `Proxy-Authorization` and `Proxy-Connection`, set the canonical Host,
/// and reduce the URI to origin-form. Fails when the URI carries no host.
pub fn mod_http1_proxy_req(req: &RequestModel) -> (r: Result<RequestModel, ProxyError>)
    ensures
        req@.uri.host is None <==> r is Err,
        r is Err ==> r == Err::<RequestModel, ProxyError>(ProxyError::UriHostAbsent),
        req@.uri.host matches Some(h) ==> (r matches Ok(r2) && r2@.method == req@.method
            && r2@.version == req@.version && r2@.uri == spec_origin_form(req@.uri)
            && r2@.headers == spec_rewritten_headers(
            req@.headers,
            spec_canonical_host(req@.uri, h),
        )),
{
    let hostname = match &req.uri.host {
        Some(h) => h.clone(),
        None => {
            return Err(ProxyError::UriHostAbsent);
        },
    };
    let secure = is_schema_secure(&req.uri);
    let effective: Option<u16> = match req.uri.port {
        Some(p) => {
            if p == 443 && secure {
                None
            } else if p == 80 && !secure {
                None
            } else {
                Some(p)
            }
        },
        None => None,
    };
    let host_value = match effective {
        Some(p) => {
            let mut s = hostname.clone();
            s.append(":");
            let ds = u16_to_decimal(p);
            s.append(ds.as_str());
            s
        },
        None => hostname.clone(),
    };
    let stripped = without_header(&req.headers, "proxy-authorization");
    let stripped = without_header(&stripped, "proxy-connection");
    let headers = with_header(&stripped, "host", host_value.as_str());
    let uri = origin_form(&req.uri);
    Ok(RequestModel { method: req.method.clone(), version: req.version, uri, headers })
}

/// Build the label a forward-proxy connection's byte counter is tagged
/// with. Fails when the URI carries no host.
pub fn build_access_label(req: &RequestModel, client: &String, username: String) -> (r: Result<
    AccessLabel,
    ProxyError,
>)
    ensures
        req@.uri.host is None <==> r is Err,
        r is Err ==> r == Err::<AccessLabel, ProxyError>(ProxyError::UriHostAbsent),
        r matches Ok(l) ==> l@.client == client@ && Some(l@.target) == spec_authority(req@.uri)
            && l@.username == username@,
{
    let target = match host_addr(&req.uri) {
        Some(t) => t,
        None => {
            return Err(ProxyError::UriHostAbsent);
        },
    };
    Ok(AccessLabel { client: client.clone(), target, username })
}

} // verus!
