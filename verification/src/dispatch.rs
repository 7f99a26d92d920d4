//! The per-request decision tree.
//!
//! Every request is classified into exactly one role: reverse-proxied,
//! served statically (or refused), tunneled, forwarded, challenged, or
//! rejected. Reverse-proxy rules are consulted before authentication, so
//! reverse-proxy routes are anonymously reachable by design; the serving
//! gate guards only the static branch; authentication guards the forward
//! proxy.

use vstd::prelude::*;
use vstd::string::StringExecFns;
use crate::auth::{check_auth, CredentialTable};
use crate::config::Config;
use crate::errors::ProxyError;
use crate::host::{extract_scheme_host_port, spec_extract, SchemeHostPort};
use crate::labels::AccessLabel;
use crate::location::{config_view, find_location, spec_find_location, LocationRule};
use crate::message::{spec_first_header, HttpVersion, RequestModel, RequestView, ResponseModel};
use crate::rewrite::{
    build_access_label, mod_http1_proxy_req, spec_canonical_host, spec_origin_form,
    spec_rewritten_headers,
};
use crate::serving::{serving_allowed, spec_serving_allowed, IpAddress};
use crate::tunnel::{
    build_authenticate_resp, spec_auth_challenge, spec_tunnel_label, spec_tunnel_reply,
    spec_tunnel_rejection, tunnel_proxy, TunnelPlan,
};

verus! {

/// What the dispatcher tells the connection runtime to do with a request.
pub enum Directive {
    /// Reject the request with a transport error (or, for
    /// `PermissionDenied`, close the connection without a word).
    Reject(ProxyError),
    /// Hand the request to the reverse-proxy handler routed by `rule`.
    ReverseProxy { proto: SchemeHostPort, rule: LocationRule },
    /// Close the connection without any reply: the serving gate refused.
    Drop,
    /// Run the static-file responder, then apply [`static_outcome`].
    ServeStatic,
    /// Write this response and be done.
    Respond(ResponseModel),
    /// Write `response`, then upgrade the connection and splice bytes to
    /// `target`, counting traffic under `label`.
    OpenTunnel { response: ResponseModel, target: String, label: AccessLabel },
    /// Send `request` upstream through the pooled forward-proxy client,
    /// counting traffic under `label`, and stream the answer back.
    Forward { request: RequestModel, label: AccessLabel },
}

/// The three-way outcome the outer runtime consumes.
pub enum Outcome {
    /// Close the connection without a reply.
    DropConnection,
    /// The response is final.
    ReturnResponse,
    /// Re-emit the request for the outer middleware's own handling.
    ContinueChain,
}

/// The default scheme of a listener: what it serves when a URI names none.
pub open spec fn spec_default_scheme(over_tls: bool) -> Seq<char> {
    if over_tls {
        "https"@
    } else {
        "http"@
    }
}

/// What the proxy stage (authentication, then tunnel or forward) must
/// produce for a request that reached it.
pub open spec fn spec_proxy_stage(
    r: Directive,
    rv: RequestView,
    cfg: Config,
    client: Seq<char>,
    local_ip: Seq<char>,
) -> bool {
    match CredentialTable::spec_check(
        cfg.basic_auth@,
        spec_first_header(rv.headers, "proxy-authorization"@),
    ) {
        Err(()) => {
            if cfg.never_ask_for_auth {
                r == Directive::Reject(ProxyError::PermissionDenied)
            } else {
                r matches Directive::Respond(resp) && spec_auth_challenge(resp@, true)
            }
        },
        Ok(uopt) => {
            let uname = (match uopt {
                Some(u) => u,
                None => "unknown"@,
            });
            if rv.is_connect() {
                match rv.uri.host {
                    Some(_) => r matches Directive::OpenTunnel { response, target, label }
                        && spec_tunnel_reply(response@, local_ip) && Some(target@)
                        == crate::host::spec_authority(rv.uri) && spec_tunnel_label(
                        label@,
                        rv,
                        client,
                        uname,
                    ),
                    None => r matches Directive::Respond(resp) && spec_tunnel_rejection(resp@),
                }
            } else {
                match rv.uri.host {
                    None => r == Directive::Reject(ProxyError::UriHostAbsent),
                    Some(h) => r matches Directive::Forward { request, label }
                        && request@.method == rv.method && request@.version == rv.version
                        && request@.uri == spec_origin_form(rv.uri) && request@.headers
                        == spec_rewritten_headers(rv.headers, spec_canonical_host(rv.uri, h))
                        && label@.client == client && Some(label@.target)
                        == crate::host::spec_authority(rv.uri) && label@.username == uname,
                }
            }
        },
    }
}

/// Classify one request and say what to do with it.
///
/// The order is the protocol: a non-CONNECT request is resolved and first
/// offered to the reverse proxy; unrouted requests addressed to this server
/// (HTTP/2, or no host in the URI) go to the serving gate and the static
/// branch; everything else is forward-proxy work behind the authentication
/// gate.
pub fn handle_request(
    req: &RequestModel,
    cfg: &Config,
    client_ip: IpAddress,
    client: &String,
    local_ip: &String,
) -> (r: Directive)
    requires
        cfg.wf(),
        vstd::string::string_is_ascii(local_ip),
        1 <= local_ip@.len() <= 1024,
    ensures
        !req@.is_connect() ==> (match spec_extract(req@, spec_default_scheme(cfg.over_tls)) {
            Err(e) => r == Directive::Reject(e),
            Ok((shp, dom)) => (match spec_find_location(
                config_view(cfg.reverse_proxy_config),
                dom,
                req@.uri.path,
            ) {
                Some(rule) => r matches Directive::ReverseProxy { proto, rule: selected }
                    && proto@ == shp && selected@ == rule,
                None => {
                    if req@.version == HttpVersion::H2 || req@.uri.host is None {
                        if spec_serving_allowed(cfg.serving_control, client_ip) {
                            r == Directive::ServeStatic
                        } else {
                            r == Directive::Drop
                        }
                    } else {
                        spec_proxy_stage(r, req@, *cfg, client@, local_ip@)
                    }
                },
            }),
        }),
        req@.is_connect() ==> spec_proxy_stage(r, req@, *cfg, client@, local_ip@),
{
    let is_connect = crate::text::str_eq(req.method.as_str(), "CONNECT");
    if !is_connect {
        let default_scheme = if cfg.over_tls {
            "https"
        } else {
            "http"
        };
        let (proto, domain) = match extract_scheme_host_port(req, default_scheme) {
            Ok(x) => x,
            Err(e) => {
                return Directive::Reject(e);
            },
        };
        if let Some(rule) = find_location(&cfg.reverse_proxy_config, &domain, req.uri.path.as_str())
        {
            return Directive::ReverseProxy { proto, rule };
        }
        let is_h2 = matches!(req.version, HttpVersion::H2);
        if is_h2 || req.uri.host.is_none() {
            if serving_allowed(&cfg.serving_control, client_ip) {
                return Directive::ServeStatic;
            } else {
                return Directive::Drop;
            }
        }
    }
    match check_auth(&req.headers, "proxy-authorization", &cfg.basic_auth) {
        Ok(user_option) => {
            let username = match user_option {
                Some(u) => u,
                None => String::from_str("unknown"),
            };
            if is_connect {
                match tunnel_proxy(req, client, username, local_ip) {
                    TunnelPlan::Established { response, target, label } => Directive::OpenTunnel {
                        response,
                        target,
                        label,
                    },
                    TunnelPlan::Rejected { response } => Directive::Respond(response),
                }
            } else {
                let label = match build_access_label(req, client, username) {
                    Ok(l) => l,
                    Err(e) => {
                        return Directive::Reject(e);
                    },
                };
                let request = match mod_http1_proxy_req(req) {
                    Ok(r2) => r2,
                    Err(e) => {
                        return Directive::Reject(e);
                    },
                };
                Directive::Forward { request, label }
            }
        },
        Err(_) => {
            if cfg.never_ask_for_auth {
                Directive::Reject(ProxyError::PermissionDenied)
            } else {
                Directive::Respond(build_authenticate_resp(true))
            }
        },
    }
}

/// What becomes of the static responder's answer: a 404 hands the request
/// back to the outer middleware for one more attempt; any other response
/// is final.
pub fn static_outcome(status: u16) -> (r: Outcome)
    ensures
        r == (if status == 404 {
            Outcome::ContinueChain
        } else {
            Outcome::ReturnResponse
        }),
{
    if status == 404 {
        Outcome::ContinueChain
    } else {
        Outcome::ReturnResponse
    }
}

} // verus!
