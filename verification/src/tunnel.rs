//! The CONNECT handshake and the responses the proxy stage writes itself:
//! the 200 tunnel reply with its length-masking padding, the CONNECT 400,
//! and the authentication challenges.

use vstd::prelude::*;
use vstd::string::{StrSliceExecFns, StringExecFns, StringSliceAdditionalSpecFns};
use crate::host::{host_addr, spec_authority};
use crate::labels::{AccessLabel, AccessLabelView};
use crate::message::{headers_view, RequestView, ResponseModel, ResponseView};

verus! {

/// Relies on rand's `random_range` over a half-open `usize` range: it
/// panics only on an empty range and returns a value the range contains.
#[verifier::external_body]
fn random_in(lo: usize, hi: usize) -> (r: usize)
    requires
        lo < hi,
    ensures
        lo <= r < hi,
{
    rand::random_range(lo..hi)
}

/// What the proxy answers when it cannot authenticate a request: a 407
/// with a `Proxy-Authenticate` challenge, or a 401 with `WWW-Authenticate`
/// when authentication protected a reverse-proxy route.
pub open spec fn spec_auth_challenge(resp: ResponseView, for_proxy: bool) -> bool {
    &&& resp.status == (if for_proxy {
        407u16
    } else {
        401u16
    })
    &&& resp.headers =~= seq![
        (
            (if for_proxy {
                "proxy-authenticate"@
            } else {
                "www-authenticate"@
            }),
            "Basic realm=\"are you kidding me\""@,
        ),
    ]
    &&& resp.body == "auth need"@
}

/// Build the authentication challenge response.
pub fn build_authenticate_resp(for_proxy: bool) -> (r: ResponseModel)
    ensures
        spec_auth_challenge(r@, for_proxy),
{
    let name = if for_proxy {
        "proxy-authenticate"
    } else {
        "www-authenticate"
    };
    let mut headers: Vec<(String, String)> = Vec::new();
    headers.push(
        (String::from_str(name), String::from_str("Basic realm=\"are you kidding me\"")),
    );
    let r = ResponseModel {
        status: if for_proxy {
            407
        } else {
            401
        },
        headers,
        body: String::from_str("auth need"),
    };
    proof {
        assert(r@.headers =~= seq![(name@, "Basic realm=\"are you kidding me\""@)]);
    }
    r
}

/// What the engine decides for a CONNECT request: open a tunnel after the
/// handshake reply, or reject the request outright.
pub enum TunnelPlan {
    /// Reply with `response`, then upgrade and splice bytes to `target`,
    /// counting traffic under `label`.
    Established { response: ResponseModel, target: String, label: AccessLabel },
    /// Reply with `response`; no tunnel is opened.
    Rejected { response: ResponseModel },
}

/// The handshake reply of an accepted CONNECT: a 200 with an empty body,
/// padded with one or more identical `Server: <local-ip>` headers so the
/// reply's length does not fingerprint the handshake. The padding count is
/// drawn fresh for each reply; only its range is fixed.
pub open spec fn spec_tunnel_reply(resp: ResponseView, local_ip: Seq<char>) -> bool {
    &&& resp.status == 200u16
    &&& resp.body =~= Seq::<char>::empty()
    &&& 1 <= resp.headers.len() < 2048int / (local_ip.len() as int)
    &&& forall|i: int|
        0 <= i < resp.headers.len() ==> #[trigger] resp.headers[i] == ("server"@, local_ip)
}

/// The reply to a CONNECT whose authority is not a socket address.
pub open spec fn spec_tunnel_rejection(resp: ResponseView) -> bool {
    &&& resp.status == 400u16
    &&& resp.headers =~= Seq::<(Seq<char>, Seq<char>)>::empty()
    &&& resp.body == "CONNECT must be to a socket address"@
}

/// The label an accepted CONNECT's byte counter is tagged with.
pub open spec fn spec_tunnel_label(
    label: AccessLabelView,
    rv: RequestView,
    client: Seq<char>,
    username: Seq<char>,
) -> bool {
    &&& label.client == client
    &&& Some(label.target) == spec_authority(rv.uri)
    &&& label.username == username
}

/// Decide a CONNECT request.
///
/// A URI with a host yields the padded 200 reply, the target authority and
/// the traffic label; a URI without one yields the 400 rejection and no
/// tunnel.
pub fn tunnel_proxy(
    req: &crate::message::RequestModel,
    client: &String,
    username: String,
    local_ip: &String,
) -> (r: TunnelPlan)
    requires
        vstd::string::string_is_ascii(local_ip),
        1 <= local_ip@.len() <= 1024,
    ensures
        req@.uri.host is Some ==> (r matches TunnelPlan::Established { response, target, label }
            && spec_tunnel_reply(response@, local_ip@) && Some(target@) == spec_authority(req@.uri)
            && spec_tunnel_label(label@, req@, client@, username@)),
        req@.uri.host is None ==> (r matches TunnelPlan::Rejected { response }
            && spec_tunnel_rejection(response@)),
{
    broadcast use vstd::string::is_ascii_spec_bytes;

    match host_addr(&req.uri) {
        Some(target) => {
            let ip_text = local_ip.as_str();
            let ip_len = ip_text.len();
            proof {
                assert(vstd::string::is_ascii(ip_text));
                assert(ip_text.spec_bytes().len() == ip_text@.len());
            }
            let max_num = 2048 / ip_len;
            proof {
                assert(max_num >= 2) by (nonlinear_arith)
                    requires
                        max_num == 2048usize / ip_len,
                        1 <= ip_len <= 1024,
                ;
            }
            let count = random_in(1, max_num);
            let mut headers: Vec<(String, String)> = Vec::new();
            let mut k: usize = 0;
            while k < count
                invariant
                    0 <= k <= count,
                    headers@.len() == k,
                    forall|i: int|
                        0 <= i < k ==> #[trigger] headers_view(headers@)[i] == (
                            "server"@,
                            local_ip@,
                        ),
                decreases count - k,
            {
                let ghost before = headers@;
                headers.push((String::from_str("server"), local_ip.clone()));
                proof {
                    assert forall|i: int|
                        0 <= i < k + 1 implies #[trigger] headers_view(headers@)[i] == (
                        "server"@,
                        local_ip@,
                    ) by {
                        if i < k {
                            assert(headers@[i] == before[i]);
                            assert(headers_view(before)[i] == ("server"@, local_ip@));
                        } else {
                            assert(headers@[i] == headers@[headers@.len() - 1]);
                        }
                    }
                }
                k = k + 1;
            }
            let response = ResponseModel { status: 200, headers, body: String::new() };
            let label = AccessLabel {
                client: client.clone(),
                target: target.clone(),
                username,
            };
            TunnelPlan::Established { response, target, label }
        },
        None => {
            let response = ResponseModel {
                status: 400,
                headers: Vec::new(),
                body: String::from_str("CONNECT must be to a socket address"),
            };
            proof {
                assert(response@.headers =~= Seq::<(Seq<char>, Seq<char>)>::empty());
            }
            TunnelPlan::Rejected { response }
        },
    }
}

} // verus!
