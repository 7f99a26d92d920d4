//! End-to-end scenarios through the dispatcher.

use rust_http_proxy::auth::CredentialTable;
use rust_http_proxy::config::{Config, Param};
use rust_http_proxy::dispatch::{handle_request, static_outcome, Directive, Outcome};
use rust_http_proxy::errors::{ConfigError, ProxyError};
use rust_http_proxy::location::{LocationRule, ReverseProxyConfig};
use rust_http_proxy::message::{HttpVersion, RequestModel, UriModel};
use rust_http_proxy::serving::IpAddress;

fn empty_reverse_config() -> ReverseProxyConfig {
    ReverseProxyConfig { locations: Vec::new() }
}

fn base_param() -> Param {
    Param {
        log_dir: "/tmp".to_string(),
        log_file: "proxy.log".to_string(),
        port: vec![3128],
        cert: "cert.pem".to_string(),
        key: "privkey.pem".to_string(),
        users: Vec::new(),
        web_content_path: "/usr/share/nginx/html".to_string(),
        referer_keywords_to_self: Vec::new(),
        never_ask_for_auth: false,
        prohibit_serving: false,
        allow_serving_network: Vec::new(),
        over_tls: false,
        reverse_proxy_config_file: None,
        enable_github_proxy: false,
        append_upstream_url: Vec::new(),
    }
}

fn connect_request(authority_host: &str, port: Option<u16>, headers: Vec<(String, String)>) -> RequestModel {
    RequestModel {
        method: "CONNECT".to_string(),
        version: HttpVersion::H1,
        uri: UriModel {
            scheme: None,
            host: Some(authority_host.to_string()),
            port,
            path: "".to_string(),
            query: None,
        },
        headers,
    }
}

fn header(name: &str, value: &str) -> (String, String) {
    (name.to_string(), value.to_string())
}

const LOCAL_IP: &str = "127.0.0.1";

#[test]
fn forward_connect_authed() {
    let mut param = base_param();
    param.users = vec!["alice:secret".to_string()];
    let cfg = Config::from_param(param, empty_reverse_config()).expect("config");
    let req = connect_request(
        "example.com",
        Some(443),
        vec![
            header("host", "example.com:443"),
            header("proxy-authorization", "Basic YWxpY2U6c2VjcmV0"),
        ],
    );
    let client = "203.0.113.9".to_string();
    match handle_request(&req, &cfg, IpAddress::V4(0xCB00_7109), &client, &LOCAL_IP.to_string()) {
        Directive::OpenTunnel { response, target, label } => {
            assert_eq!(response.status, 200);
            assert_eq!(response.body, "");
            assert!(response.headers.len() >= 1);
            assert!(response.headers.len() < 2048 / LOCAL_IP.len());
            for (name, value) in &response.headers {
                assert_eq!(name, "server");
                assert_eq!(value, LOCAL_IP);
            }
            assert_eq!(target, "example.com:443");
            assert_eq!(label.client, "203.0.113.9");
            assert_eq!(label.target, "example.com:443");
            assert_eq!(label.username, "alice");
        }
        _ => panic!("expected an open tunnel"),
    }
}

#[test]
fn forward_connect_unauthed_ask_mode() {
    let mut param = base_param();
    param.users = vec!["alice:secret".to_string()];
    let cfg = Config::from_param(param, empty_reverse_config()).expect("config");
    let req = connect_request("example.com", Some(443), vec![header("host", "example.com:443")]);
    let client = "203.0.113.9".to_string();
    match handle_request(&req, &cfg, IpAddress::V4(0xCB00_7109), &client, &LOCAL_IP.to_string()) {
        Directive::Respond(resp) => {
            assert_eq!(resp.status, 407);
            assert_eq!(resp.headers.len(), 1);
            assert_eq!(resp.headers[0].0, "proxy-authenticate");
            assert_eq!(resp.headers[0].1, "Basic realm=\"are you kidding me\"");
            assert_eq!(resp.body, "auth need");
        }
        _ => panic!("expected a 407 challenge"),
    }
}

#[test]
fn forward_connect_unauthed_silent_mode() {
    let mut param = base_param();
    param.users = vec!["alice:secret".to_string()];
    param.never_ask_for_auth = true;
    let cfg = Config::from_param(param, empty_reverse_config()).expect("config");
    let req = connect_request("example.com", Some(443), vec![header("host", "example.com:443")]);
    let client = "203.0.113.9".to_string();
    match handle_request(&req, &cfg, IpAddress::V4(0xCB00_7109), &client, &LOCAL_IP.to_string()) {
        Directive::Reject(e) => assert_eq!(e, ProxyError::PermissionDenied),
        _ => panic!("expected the connection to be refused without a reply"),
    }
}

#[test]
fn connect_bad_authority_is_400() {
    let mut param = base_param();
    param.users = vec!["alice:secret".to_string()];
    let cfg = Config::from_param(param, empty_reverse_config()).expect("config");
    let mut req = connect_request("ignored", None, vec![header("proxy-authorization", "Basic YWxpY2U6c2VjcmV0")]);
    req.uri.host = None;
    let client = "203.0.113.9".to_string();
    match handle_request(&req, &cfg, IpAddress::V4(0xCB00_7109), &client, &LOCAL_IP.to_string()) {
        Directive::Respond(resp) => {
            assert_eq!(resp.status, 400);
            assert_eq!(resp.body, "CONNECT must be to a socket address");
            assert!(resp.headers.is_empty());
        }
        _ => panic!("expected a 400 and no tunnel"),
    }
}

#[test]
fn simple_forward_get_is_rewritten() {
    let mut param = base_param();
    param.users = vec!["alice:secret".to_string()];
    let cfg = Config::from_param(param, empty_reverse_config()).expect("config");
    let req = RequestModel {
        method: "GET".to_string(),
        version: HttpVersion::H1,
        uri: UriModel {
            scheme: Some("http".to_string()),
            host: Some("origin.example".to_string()),
            port: None,
            path: "/path".to_string(),
            query: Some("x=1".to_string()),
        },
        headers: vec![
            header("host", "origin.example"),
            header("proxy-authorization", "Basic YWxpY2U6c2VjcmV0"),
        ],
    };
    let client = "203.0.113.9".to_string();
    match handle_request(&req, &cfg, IpAddress::V4(0xCB00_7109), &client, &LOCAL_IP.to_string()) {
        Directive::Forward { request, label } => {
            assert_eq!(request.method, "GET");
            assert!(request.uri.scheme.is_none());
            assert!(request.uri.host.is_none());
            assert!(request.uri.port.is_none());
            assert_eq!(request.uri.path, "/path");
            assert_eq!(request.uri.query.as_deref(), Some("x=1"));
            assert!(request.headers.iter().all(|h| h.0 != "proxy-authorization"));
            assert!(request.headers.iter().all(|h| h.0 != "proxy-connection"));
            let hosts: Vec<_> = request.headers.iter().filter(|h| h.0 == "host").collect();
            assert_eq!(hosts.len(), 1);
            assert_eq!(hosts[0].1, "origin.example");
            assert_eq!(label.target, "origin.example");
            assert_eq!(label.username, "alice");
        }
        _ => panic!("expected the request to be forwarded"),
    }
}

#[test]
fn reverse_proxy_hit_skips_auth() {
    let mut param = base_param();
    param.users = vec!["alice:secret".to_string()];
    let reverse = ReverseProxyConfig {
        locations: vec![(
            "cdn.example".to_string(),
            vec![LocationRule {
                location: "/lib/".to_string(),
                upstream_url_base: "https://cdnjs.cloudflare.com".to_string(),
            }],
        )],
    };
    let cfg = Config::from_param(param, reverse).expect("config");
    // No Proxy-Authorization at all: authentication must not be consulted.
    let req = RequestModel {
        method: "GET".to_string(),
        version: HttpVersion::H1,
        uri: UriModel {
            scheme: None,
            host: None,
            port: None,
            path: "/lib/jquery.js".to_string(),
            query: None,
        },
        headers: vec![header("host", "cdn.example")],
    };
    let client = "203.0.113.9".to_string();
    match handle_request(&req, &cfg, IpAddress::V4(0xCB00_7109), &client, &LOCAL_IP.to_string()) {
        Directive::ReverseProxy { proto, rule } => {
            assert_eq!(proto.host, "cdn.example");
            assert_eq!(proto.scheme, "http");
            assert_eq!(rule.location, "/lib/");
            assert_eq!(rule.upstream_url_base, "https://cdnjs.cloudflare.com");
        }
        _ => panic!("expected the reverse proxy to take the request"),
    }
}

#[test]
fn static_cidr_deny_drops() {
    let mut param = base_param();
    param.allow_serving_network = vec!["10.0.0.0/8".to_string()];
    let cfg = Config::from_param(param, empty_reverse_config()).expect("config");
    let req = RequestModel {
        method: "GET".to_string(),
        version: HttpVersion::H2,
        uri: UriModel {
            scheme: Some("https".to_string()),
            host: Some("proxy.example".to_string()),
            port: None,
            path: "/index.html".to_string(),
            query: None,
        },
        headers: Vec::new(),
    };
    // 192.168.1.5 is not in 10.0.0.0/8.
    let client_ip = IpAddress::V4((192 << 24) | (168 << 16) | (1 << 8) | 5);
    let client = "192.168.1.5".to_string();
    match handle_request(&req, &cfg, client_ip, &client, &LOCAL_IP.to_string()) {
        Directive::Drop => {}
        _ => panic!("expected the connection to be dropped"),
    }
}

#[test]
fn static_allowed_network_serves() {
    let mut param = base_param();
    param.allow_serving_network = vec!["10.0.0.0/8".to_string()];
    let cfg = Config::from_param(param, empty_reverse_config()).expect("config");
    let req = RequestModel {
        method: "GET".to_string(),
        version: HttpVersion::H2,
        uri: UriModel {
            scheme: Some("https".to_string()),
            host: Some("proxy.example".to_string()),
            port: None,
            path: "/index.html".to_string(),
            query: None,
        },
        headers: Vec::new(),
    };
    let client_ip = IpAddress::V4(10 << 24 | 7);
    let client = "10.0.0.7".to_string();
    match handle_request(&req, &cfg, client_ip, &client, &LOCAL_IP.to_string()) {
        Directive::ServeStatic => {}
        _ => panic!("expected the static branch"),
    }
}

#[test]
fn prohibit_serving_drops_http2() {
    let mut param = base_param();
    param.prohibit_serving = true;
    let cfg = Config::from_param(param, empty_reverse_config()).expect("config");
    let req = RequestModel {
        method: "GET".to_string(),
        version: HttpVersion::H2,
        uri: UriModel {
            scheme: Some("https".to_string()),
            host: Some("proxy.example".to_string()),
            port: None,
            path: "/".to_string(),
            query: None,
        },
        headers: Vec::new(),
    };
    let client = "203.0.113.9".to_string();
    match handle_request(&req, &cfg, IpAddress::V4(0xCB00_7109), &client, &LOCAL_IP.to_string()) {
        Directive::Drop => {}
        _ => panic!("expected the connection to be dropped"),
    }
}

#[test]
fn empty_credential_table_is_anonymous() {
    let cfg = Config::from_param(base_param(), empty_reverse_config()).expect("config");
    let req = connect_request("example.com", Some(443), vec![header("host", "example.com:443")]);
    let client = "203.0.113.9".to_string();
    match handle_request(&req, &cfg, IpAddress::V4(0xCB00_7109), &client, &LOCAL_IP.to_string()) {
        Directive::OpenTunnel { label, .. } => {
            assert_eq!(label.username, "unknown");
        }
        _ => panic!("expected an anonymous tunnel"),
    }
}

#[test]
fn missing_host_header_is_rejected() {
    let cfg = Config::from_param(base_param(), empty_reverse_config()).expect("config");
    let req = RequestModel {
        method: "GET".to_string(),
        version: HttpVersion::H1,
        uri: UriModel {
            scheme: Some("http".to_string()),
            host: Some("origin.example".to_string()),
            port: None,
            path: "/".to_string(),
            query: None,
        },
        headers: Vec::new(),
    };
    let client = "203.0.113.9".to_string();
    match handle_request(&req, &cfg, IpAddress::V4(0xCB00_7109), &client, &LOCAL_IP.to_string()) {
        Directive::Reject(e) => assert_eq!(e, ProxyError::HostHeaderAbsent),
        _ => panic!("expected a rejection"),
    }
}

#[test]
fn bad_host_header_port_is_rejected() {
    let cfg = Config::from_param(base_param(), empty_reverse_config()).expect("config");
    let req = RequestModel {
        method: "GET".to_string(),
        version: HttpVersion::H1,
        uri: UriModel {
            scheme: Some("http".to_string()),
            host: Some("origin.example".to_string()),
            port: None,
            path: "/".to_string(),
            query: None,
        },
        headers: vec![header("host", "origin.example:notaport")],
    };
    let client = "203.0.113.9".to_string();
    match handle_request(&req, &cfg, IpAddress::V4(0xCB00_7109), &client, &LOCAL_IP.to_string()) {
        Directive::Reject(e) => assert_eq!(e, ProxyError::HostHeaderInvalid),
        _ => panic!("expected a rejection"),
    }
}

#[test]
fn http2_without_authority_is_rejected() {
    let cfg = Config::from_param(base_param(), empty_reverse_config()).expect("config");
    let req = RequestModel {
        method: "GET".to_string(),
        version: HttpVersion::H2,
        uri: UriModel { scheme: None, host: None, port: None, path: "/".to_string(), query: None },
        headers: Vec::new(),
    };
    let client = "203.0.113.9".to_string();
    match handle_request(&req, &cfg, IpAddress::V4(0xCB00_7109), &client, &LOCAL_IP.to_string()) {
        Directive::Reject(e) => assert_eq!(e, ProxyError::AuthorityAbsent),
        _ => panic!("expected a rejection"),
    }
}

#[test]
fn static_outcome_follows_status() {
    assert!(matches!(static_outcome(404), Outcome::ContinueChain));
    assert!(matches!(static_outcome(200), Outcome::ReturnResponse));
    assert!(matches!(static_outcome(403), Outcome::ReturnResponse));
}

#[test]
fn credential_table_rejects_malformed_users() {
    let table = CredentialTable::build(&vec!["alice:secret".to_string()]).expect("valid user");
    assert_eq!(table.entries.len(), 1);
    assert_eq!(table.entries[0].0, "Basic YWxpY2U6c2VjcmV0");
    assert_eq!(table.entries[0].1, "alice");
    // A bad specification is fatal, and the first one is reported.
    let bad = vec!["alice:secret".to_string(), "nopassword:".to_string(), ":nouser".to_string()];
    match CredentialTable::build(&bad) {
        Err(ConfigError::InvalidUser(s)) => assert_eq!(s, "nopassword:"),
        _ => panic!("expected the first invalid user to be fatal"),
    }
    match CredentialTable::build(&vec!["plain".to_string()]) {
        Err(ConfigError::InvalidUser(s)) => assert_eq!(s, "plain"),
        _ => panic!("expected a user without a password to be fatal"),
    }
    match CredentialTable::build(&vec![":nouser".to_string()]) {
        Err(ConfigError::InvalidUser(s)) => assert_eq!(s, ":nouser"),
        _ => panic!("expected a user without a name to be fatal"),
    }
}

#[test]
fn cidr_parsing_through_config() {
    let mut param = base_param();
    param.allow_serving_network = vec!["10.0.0.0/8".to_string(), "2001:db8::/32".to_string()];
    let cfg = Config::from_param(param, empty_reverse_config()).expect("config");
    let nets = &cfg.serving_control.allowed_networks;
    assert_eq!(nets.len(), 2);
    assert!(!nets[0].v6);
    assert_eq!(nets[0].addr, 10u128 << 24);
    assert_eq!(nets[0].prefix, 8);
    assert!(nets[1].v6);
    assert_eq!(nets[1].addr, 0x2001_0db8u128 << 96);
    assert_eq!(nets[1].prefix, 32);
}

#[test]
fn invalid_cidr_is_fatal() {
    let mut param = base_param();
    param.allow_serving_network = vec!["10.0.0.0/8".to_string(), "not a cidr".to_string()];
    match Config::from_param(param, empty_reverse_config()) {
        Err(ConfigError::InvalidCidr(s)) => assert_eq!(s, "not a cidr"),
        _ => panic!("expected the invalid CIDR to be fatal"),
    }
    // With serving prohibited the allow-list is irrelevant and not parsed.
    let mut prohibited = base_param();
    prohibited.prohibit_serving = true;
    prohibited.allow_serving_network = vec!["not a cidr".to_string()];
    let cfg = Config::from_param(prohibited, empty_reverse_config()).expect("config");
    assert!(cfg.serving_control.allowed_networks.is_empty());
}

#[test]
fn empty_host_is_rejected() {
    let cfg = Config::from_param(base_param(), empty_reverse_config()).expect("config");
    let client = "203.0.113.9".to_string();
    // HTTP/1.1: a Host header with an empty host segment.
    for host_value in ["", ":443"] {
        let req = RequestModel {
            method: "GET".to_string(),
            version: HttpVersion::H1,
            uri: UriModel {
                scheme: Some("http".to_string()),
                host: Some("origin.example".to_string()),
                port: None,
                path: "/".to_string(),
                query: None,
            },
            headers: vec![header("host", host_value)],
        };
        match handle_request(&req, &cfg, IpAddress::V4(0xCB00_7109), &client, &LOCAL_IP.to_string())
        {
            Directive::Reject(e) => assert_eq!(e, ProxyError::HostHeaderInvalid),
            _ => panic!("expected an empty host to be rejected"),
        }
    }
    // HTTP/2: a URI whose authority host is empty.
    let req = RequestModel {
        method: "GET".to_string(),
        version: HttpVersion::H2,
        uri: UriModel {
            scheme: Some("https".to_string()),
            host: Some("".to_string()),
            port: None,
            path: "/".to_string(),
            query: None,
        },
        headers: Vec::new(),
    };
    match handle_request(&req, &cfg, IpAddress::V4(0xCB00_7109), &client, &LOCAL_IP.to_string()) {
        Directive::Reject(e) => assert_eq!(e, ProxyError::AuthorityAbsent),
        _ => panic!("expected an empty host to be rejected"),
    }
}

#[test]
fn prohibit_serving_ignores_allow_list() {
    let mut param = base_param();
    param.prohibit_serving = true;
    param.allow_serving_network = vec!["0.0.0.0/0".to_string()];
    let cfg = Config::from_param(param, empty_reverse_config()).expect("config");
    assert!(cfg.serving_control.allowed_networks.is_empty());
    let req = RequestModel {
        method: "GET".to_string(),
        version: HttpVersion::H2,
        uri: UriModel {
            scheme: Some("https".to_string()),
            host: Some("proxy.example".to_string()),
            port: None,
            path: "/".to_string(),
            query: None,
        },
        headers: Vec::new(),
    };
    let client = "10.0.0.7".to_string();
    match handle_request(&req, &cfg, IpAddress::V4(10 << 24 | 7), &client, &LOCAL_IP.to_string()) {
        Directive::Drop => {}
        _ => panic!("expected the connection to be dropped"),
    }
}
