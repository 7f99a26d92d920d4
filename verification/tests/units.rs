//! Unit tests of the building blocks.

use rust_http_proxy::host::{host_addr, host_port, host_segment, SchemeHostPort};
use rust_http_proxy::labels::AccessLabel;
use rust_http_proxy::location::{find_location, LocationRule, ReverseProxyConfig};
use rust_http_proxy::host::RequestDomain;
use rust_http_proxy::message::{HttpVersion, RequestModel, UriModel};
use rust_http_proxy::rewrite::{is_schema_secure, mod_http1_proxy_req, origin_form};
use rust_http_proxy::errors::ProxyError;
use rust_http_proxy::serving::{canonical_ip, cidr_contains, CidrNetwork, IpAddress};
use rust_http_proxy::text::{parse_u16, u16_to_decimal};
use rust_http_proxy::tunnel::build_authenticate_resp;

#[test]
fn test_aa() {
    let host = "www.arloor.com";
    assert_eq!(host_segment(host), host.to_string());
}

#[test]
fn parse_u16_accepts_what_std_accepts() {
    assert_eq!(parse_u16("443"), Some(443));
    assert_eq!(parse_u16("+80"), Some(80));
    assert_eq!(parse_u16("0"), Some(0));
    assert_eq!(parse_u16("65535"), Some(65535));
    assert_eq!(parse_u16("65536"), None);
    assert_eq!(parse_u16("99999999999999999999"), None);
    assert_eq!(parse_u16(""), None);
    assert_eq!(parse_u16("+"), None);
    assert_eq!(parse_u16("8 0"), None);
    assert_eq!(parse_u16("-1"), None);
}

#[test]
fn u16_to_decimal_formats() {
    assert_eq!(u16_to_decimal(0), "0".to_string());
    assert_eq!(u16_to_decimal(7), "7".to_string());
    assert_eq!(u16_to_decimal(8080), "8080".to_string());
    assert_eq!(u16_to_decimal(65535), "65535".to_string());
}

#[test]
fn host_splitting() {
    assert_eq!(host_segment("example.com:443"), "example.com".to_string());
    assert_eq!(host_segment("example.com"), "example.com".to_string());
    assert_eq!(host_port("example.com:443"), Ok(Some(443)));
    assert_eq!(host_port("example.com"), Ok(None));
    assert_eq!(host_port("example.com:bad"), Err(ProxyError::HostHeaderInvalid));
    assert_eq!(host_port("example.com:"), Err(ProxyError::HostHeaderInvalid));
    // split(':') looks only between the first and second colon
    assert_eq!(host_port("a:1:2"), Ok(Some(1)));
}

#[test]
fn authority_text() {
    let uri = UriModel {
        scheme: None,
        host: Some("example.com".to_string()),
        port: Some(8443),
        path: "".to_string(),
        query: None,
    };
    assert_eq!(host_addr(&uri), Some("example.com:8443".to_string()));
    let no_port = UriModel { port: None, ..uri.clone() };
    assert_eq!(host_addr(&no_port), Some("example.com".to_string()));
    let no_host = UriModel { host: None, ..uri };
    assert_eq!(host_addr(&no_host), None);
}

#[test]
fn scheme_host_port_display() {
    let shp = SchemeHostPort {
        scheme: "https".to_string(),
        host: "example.com".to_string(),
        port: Some(8443),
    };
    assert_eq!(shp.display_string(), "https://example.com:8443".to_string());
    let bare = SchemeHostPort { scheme: "http".to_string(), host: "h".to_string(), port: None };
    assert_eq!(bare.display_string(), "http://h".to_string());
}

#[test]
fn access_label_display() {
    let label = AccessLabel {
        client: "1.2.3.4".to_string(),
        target: "example.com:443".to_string(),
        username: "alice".to_string(),
    };
    assert_eq!(label.display_string(), "1.2.3.4 -> example.com:443".to_string());
}

#[test]
fn origin_form_keeps_path_and_query() {
    let uri = UriModel {
        scheme: Some("http".to_string()),
        host: Some("h".to_string()),
        port: Some(80),
        path: "/a/b".to_string(),
        query: Some("x=1".to_string()),
    };
    let o = origin_form(&uri);
    assert!(o.scheme.is_none() && o.host.is_none() && o.port.is_none());
    assert_eq!(o.path, "/a/b");
    assert_eq!(o.query.as_deref(), Some("x=1"));

    let empty = UriModel {
        scheme: Some("http".to_string()),
        host: Some("h".to_string()),
        port: None,
        path: "".to_string(),
        query: None,
    };
    let o2 = origin_form(&empty);
    assert_eq!(o2.path, "/");
    assert!(o2.query.is_none());
}

#[test]
fn rewrite_applied_twice_equals_once() {
    let req = RequestModel {
        method: "GET".to_string(),
        version: HttpVersion::H1,
        uri: UriModel {
            scheme: Some("http".to_string()),
            host: Some("h.example".to_string()),
            port: Some(8080),
            path: "/p".to_string(),
            query: None,
        },
        headers: vec![
            ("proxy-connection".to_string(), "Keep-Alive".to_string()),
            ("host".to_string(), "stale".to_string()),
        ],
    };
    let once = mod_http1_proxy_req(&req).expect("rewrite");
    // The headers of the rewritten request are a fixed point of the header
    // rewrite: stripping again and re-setting the same Host changes nothing.
    assert_eq!(once.headers.len(), 1);
    assert_eq!(once.headers[0], ("host".to_string(), "h.example:8080".to_string()));
    let again = origin_form(&once.uri);
    assert_eq!(again.path, once.uri.path);
    assert_eq!(again.query, once.uri.query);
    // The full rewriter refuses its own output: origin-form has no host.
    assert_eq!(mod_http1_proxy_req(&once).unwrap_err(), ProxyError::UriHostAbsent);
}

#[test]
fn default_ports_are_elided() {
    let req = RequestModel {
        method: "GET".to_string(),
        version: HttpVersion::H1,
        uri: UriModel {
            scheme: Some("https".to_string()),
            host: Some("h.example".to_string()),
            port: Some(443),
            path: "/".to_string(),
            query: None,
        },
        headers: Vec::new(),
    };
    let out = mod_http1_proxy_req(&req).expect("rewrite");
    assert_eq!(out.headers, vec![("host".to_string(), "h.example".to_string())]);

    let http80 = RequestModel {
        uri: UriModel {
            scheme: Some("http".to_string()),
            port: Some(80),
            ..req.uri.clone()
        },
        ..req.clone()
    };
    let out80 = mod_http1_proxy_req(&http80).expect("rewrite");
    assert_eq!(out80.headers, vec![("host".to_string(), "h.example".to_string())]);

    // 443 is only elided on a secure scheme.
    let odd = RequestModel {
        uri: UriModel {
            scheme: Some("http".to_string()),
            port: Some(443),
            ..req.uri.clone()
        },
        ..req.clone()
    };
    let out_odd = mod_http1_proxy_req(&odd).expect("rewrite");
    assert_eq!(out_odd.headers, vec![("host".to_string(), "h.example:443".to_string())]);
}

#[test]
fn schema_security() {
    let mk = |s: Option<&str>| UriModel {
        scheme: s.map(|x| x.to_string()),
        host: None,
        port: None,
        path: "/".to_string(),
        query: None,
    };
    assert!(is_schema_secure(&mk(Some("https"))));
    assert!(is_schema_secure(&mk(Some("wss"))));
    assert!(!is_schema_secure(&mk(Some("http"))));
    assert!(!is_schema_secure(&mk(Some("ws"))));
    assert!(!is_schema_secure(&mk(None)));
}

#[test]
fn location_order_decides() {
    let mk = |rules: Vec<(&str, &str)>| ReverseProxyConfig {
        locations: vec![(
            "h.example".to_string(),
            rules
                .into_iter()
                .map(|(l, u)| LocationRule {
                    location: l.to_string(),
                    upstream_url_base: u.to_string(),
                })
                .collect(),
        )],
    };
    let domain = RequestDomain("h.example".to_string());
    let first = mk(vec![("/a", "one"), ("/a/b", "two")]);
    let hit = find_location(&first, &domain, "/a/b/c").expect("match");
    assert_eq!(hit.upstream_url_base, "one");
    let swapped = mk(vec![("/a/b", "two"), ("/a", "one")]);
    let hit2 = find_location(&swapped, &domain, "/a/b/c").expect("match");
    assert_eq!(hit2.upstream_url_base, "two");
}

#[test]
fn location_falls_back_to_default_host() {
    let cfg = ReverseProxyConfig {
        locations: vec![(
            "default_host".to_string(),
            vec![LocationRule {
                location: "/".to_string(),
                upstream_url_base: "fallback".to_string(),
            }],
        )],
    };
    let hit = find_location(&cfg, &RequestDomain("other.example".to_string()), "/x");
    assert_eq!(hit.expect("match").upstream_url_base, "fallback");
    let miss = find_location(&cfg, &RequestDomain("other.example".to_string()), "x-no-slash");
    assert!(miss.is_none());
}

#[test]
fn canonical_ip_unmaps_v4() {
    // ::ffff:192.168.1.5
    let mapped = IpAddress::V6((0xffffu128 << 32) | 0xc0a8_0105u128);
    assert_eq!(canonical_ip(mapped), IpAddress::V4(0xc0a8_0105));
    let plain6 = IpAddress::V6((0x2001_0db8u128 << 96) | 1);
    assert_eq!(canonical_ip(plain6), plain6);
    assert_eq!(canonical_ip(IpAddress::V4(7)), IpAddress::V4(7));
}

#[test]
fn cidr_membership() {
    let ten_eight = CidrNetwork { v6: false, addr: 10u128 << 24, prefix: 8 };
    assert!(cidr_contains(&ten_eight, IpAddress::V4(10 << 24)));
    assert!(cidr_contains(&ten_eight, IpAddress::V4(10 << 24 | 99)));
    assert!(!cidr_contains(&ten_eight, IpAddress::V4(11 << 24)));
    assert!(!cidr_contains(&ten_eight, IpAddress::V6(10 << 24)));
    let all = CidrNetwork { v6: false, addr: 0, prefix: 0 };
    assert!(cidr_contains(&all, IpAddress::V4(0xffff_ffff)));
}

#[test]
fn authenticate_responses() {
    let proxy = build_authenticate_resp(true);
    assert_eq!(proxy.status, 407);
    assert_eq!(proxy.headers, vec![(
        "proxy-authenticate".to_string(),
        "Basic realm=\"are you kidding me\"".to_string(),
    )]);
    assert_eq!(proxy.body, "auth need");
    let origin = build_authenticate_resp(false);
    assert_eq!(origin.status, 401);
    assert_eq!(origin.headers[0].0, "www-authenticate");
    assert_eq!(origin.body, "auth need");
}
