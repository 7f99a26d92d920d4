//! Version-aware host resolution: derive the (scheme, host, port) a request
//! addresses and the domain key used for reverse-proxy lookup.

use vstd::prelude::*;
use vstd::string::{StrSliceExecFns, StringExecFns};
use crate::errors::ProxyError;
use crate::message::{spec_first_header, HttpVersion, RequestModel, UriModel, UriView};
use crate::text::{
    before_char, between_char, parse_u16, spec_before_char, spec_between_char, spec_dec_str,
    spec_parse_u16, u16_to_decimal,
};

verus! {

/// The scheme, host and optional port a request is addressed to.
#[derive(Clone, Debug)]
pub struct SchemeHostPort {
    pub scheme: String,
    pub host: String,
    pub port: Option<u16>,
}

pub struct SchemeHostPortView {
    pub scheme: Seq<char>,
    pub host: Seq<char>,
    pub port: Option<u16>,
}

impl View for SchemeHostPort {
    type V = SchemeHostPortView;

    open spec fn view(&self) -> SchemeHostPortView {
        SchemeHostPortView { scheme: self.scheme@, host: self.host@, port: self.port }
    }
}

/// The normalized key a request is looked up under in the reverse-proxy
/// configuration: the host segment of the Host header, or for HTTP/2 the
/// URI host when no Host header is present.
#[derive(Clone, Debug)]
pub struct RequestDomain(pub String);

impl View for RequestDomain {
    type V = Seq<char>;

    open spec fn view(&self) -> Seq<char> {
        self.0@
    }
}

/// The segment of `host[:port]` before the first `:`, the whole string when
/// there is none.
pub open spec fn spec_host_segment(hv: Seq<char>) -> Seq<char> {
    spec_before_char(hv, ':')
}

/// The text between the first `:` of `host[:port[:rest]]` and the second
/// one (or the end), if a first `:` exists: what `split(':')` yields as the
/// second piece.
pub open spec fn spec_port_segment(hv: Seq<char>) -> Option<Seq<char>> {
    spec_between_char(hv, ':')
}

/// The port of a `host[:port]` Host header: `Ok(None)` when no `:` is
/// present, `Ok(Some(p))` when the segment parses as a `u16`, `Err` when it
/// does not.
pub open spec fn spec_host_port(hv: Seq<char>) -> Result<Option<u16>, ()> {
    match spec_port_segment(hv) {
        None => Ok(None),
        Some(ps) => (match spec_parse_u16(ps) {
            Some(p) => Ok(Some(p)),
            None => Err(()),
        }),
    }
}

/// The scheme a request resolves to: the URI's scheme when present, the
/// listener's default otherwise.
pub open spec fn spec_scheme_or_default(u: UriView, default_scheme: Seq<char>) -> Seq<char> {
    match u.scheme {
        Some(s) => s,
        None => default_scheme,
    }
}

/// The host segment of `host[:port]`, executable form.
pub fn host_segment(hv: &str) -> (r: String)
    ensures
        r@ == spec_host_segment(hv@),
{
    before_char(hv, ':')
}

/// The port of a `host[:port]` Host header, executable form.
pub fn host_port(hv: &str) -> (r: Result<Option<u16>, ProxyError>)
    ensures
        r matches Ok(p) ==> spec_host_port(hv@) == Ok::<Option<u16>, ()>(p),
        r is Err ==> spec_host_port(hv@) is Err && r == Err::<Option<u16>, ProxyError>(
            ProxyError::HostHeaderInvalid,
        ),
{
    match between_char(hv, ':') {
        Some(piece) => {
            match parse_u16(piece.as_str()) {
                Some(p) => Ok(Some(p)),
                None => Err(ProxyError::HostHeaderInvalid),
            }
        },
        None => Ok(None),
    }
}

/// What host resolution yields on a request: the addressed scheme, host
/// and port, and the request-domain key; or the error the request is
/// rejected with.
///
/// For HTTP/2 the URI is authoritative: its host is required, its port is
/// taken as is, and the domain key prefers the Host header's host segment.
/// For HTTP/1.1 the Host header is authoritative: it is split as
/// `host[:port]`, the port must parse, and the domain key is the host
/// segment. An empty host is rejected in either version.
pub open spec fn spec_extract(rv: crate::message::RequestView, ds: Seq<char>) -> Result<
    (SchemeHostPortView, Seq<char>),
    ProxyError,
> {
    if rv.version == HttpVersion::H2 {
        match rv.uri.host {
            None => Err(ProxyError::AuthorityAbsent),
            Some(h) => {
                if h.len() == 0 {
                    Err(ProxyError::AuthorityAbsent)
                } else {
                    Ok(
                        (
                            SchemeHostPortView {
                                scheme: spec_scheme_or_default(rv.uri, ds),
                                host: h,
                                port: rv.uri.port,
                            },
                            (match spec_first_header(rv.headers, "host"@) {
                                Some(hh) => spec_host_segment(hh),
                                None => h,
                            }),
                        ),
                    )
                }
            },
        }
    } else {
        match spec_first_header(rv.headers, "host"@) {
            None => Err(ProxyError::HostHeaderAbsent),
            Some(hh) => {
                if spec_host_segment(hh).len() == 0 {
                    Err(ProxyError::HostHeaderInvalid)
                } else {
                    match spec_host_port(hh) {
                        Err(()) => Err(ProxyError::HostHeaderInvalid),
                        Ok(p) => Ok(
                            (
                                SchemeHostPortView {
                                    scheme: spec_scheme_or_default(rv.uri, ds),
                                    host: spec_host_segment(hh),
                                    port: p,
                                },
                                spec_host_segment(hh),
                            ),
                        ),
                    }
                }
            },
        }
    }
}

/// Resolve scheme, host, port and the request-domain key, as
/// [`spec_extract`] describes.
pub fn extract_scheme_host_port(req: &RequestModel, default_scheme: &str) -> (r: Result<
    (SchemeHostPort, RequestDomain),
    ProxyError,
>)
    ensures
        (r matches Ok((shp, d)) ==> spec_extract(req@, default_scheme@) == Ok::<
            (SchemeHostPortView, Seq<char>),
            ProxyError,
        >((shp@, d@))),
        (r matches Err(e) ==> spec_extract(req@, default_scheme@) == Err::<
            (SchemeHostPortView, Seq<char>),
            ProxyError,
        >(e)),
        (r matches Ok((shp, d)) ==> shp@.host.len() > 0),
{
    let scheme = match &req.uri.scheme {
        Some(s) => s.clone(),
        None => default_scheme.to_owned(),
    };
    if matches!(req.version, HttpVersion::H2) {
        let host_in_url = match &req.uri.host {
            Some(h) => h.clone(),
            None => {
                return Err(ProxyError::AuthorityAbsent);
            },
        };
        if host_in_url.as_str().is_empty() {
            return Err(ProxyError::AuthorityAbsent);
        }
        let domain = match crate::message::get_header(&req.headers, "host") {
            Some(hh) => host_segment(hh.as_str()),
            None => host_in_url.clone(),
        };
        Ok((
            SchemeHostPort { scheme, host: host_in_url, port: req.uri.port },
            RequestDomain(domain),
        ))
    } else {
        let hh = match crate::message::get_header(&req.headers, "host") {
            Some(hh) => hh,
            None => {
                return Err(ProxyError::HostHeaderAbsent);
            },
        };
        let host = host_segment(hh.as_str());
        if host.as_str().is_empty() {
            return Err(ProxyError::HostHeaderInvalid);
        }
        let port = match host_port(hh.as_str()) {
            Ok(p) => p,
            Err(e) => {
                return Err(e);
            },
        };
        Ok((
            SchemeHostPort { scheme, host: host.clone(), port },
            RequestDomain(host),
        ))
    }
}

/// The `host[:port]` authority text a URI addresses, if it has a host.
pub open spec fn spec_authority(u: UriView) -> Option<Seq<char>> {
    match u.host {
        None => None,
        Some(h) => Some(
            h + (match u.port {
                Some(p) => ":"@ + spec_dec_str(p as int),
                None => Seq::<char>::empty(),
            }),
        ),
    }
}

/// The authority text of a URI, executable form.
pub fn host_addr(uri: &UriModel) -> (r: Option<String>)
    ensures
        (r matches Some(s) ==> spec_authority(uri@) == Some(s@)),
        (r is None ==> uri@.host is None),
{
    match &uri.host {
        None => None,
        Some(h) => {
            match uri.port {
                Some(p) => {
                    let mut s = h.clone();
                    s.append(":");
                    let ds = u16_to_decimal(p);
                    s.append(ds.as_str());
                    Some(s)
                },
                None => {
                    proof {
                        assert(h@ + Seq::<char>::empty() =~= h@);
                    }
                    Some(h.clone())
                },
            }
        },
    }
}

impl SchemeHostPort {
    /// The `scheme://host[:port]` text, as the server logs it.
    pub fn display_string(&self) -> (r: String)
        ensures
            r@ == self@.scheme + "://"@ + self@.host + (match self@.port {
                Some(p) => ":"@ + spec_dec_str(p as int),
                None => Seq::<char>::empty(),
            }),
    {
        let mut s = self.scheme.clone();
        s.append("://");
        s.append(self.host.as_str());
        match self.port {
            Some(p) => {
                s.append(":");
                let ds = u16_to_decimal(p);
                s.append(ds.as_str());
            },
            None => {
                proof {
                    assert(self@.scheme + "://"@ + self@.host + Seq::<char>::empty()
                        =~= self@.scheme + "://"@ + self@.host);
                }
            },
        }
        s
    }
}

} // verus!
