use anng::aio::{IoError, IoErrorKind, IoErrorPayload};
use anng::pipes::{parse_tcp_url, tcp_url_address, tcp_url_of, SockAddr, TcpAddr, TcpOptions, Url};

fn invalid_data(e: IoError) -> String {
    assert_eq!(e.kind, IoErrorKind::InvalidData);
    match e.payload {
        IoErrorPayload::Text(m) => m,
        IoErrorPayload::Nng(k) => panic!("expected a message, got {k:?}"),
    }
}

fn url(s: &str) -> Url {
    Url::new(s.to_string())
}

fn v4(a: u32, port: u16) -> TcpAddr {
    TcpAddr { ipv6: false, ip: a as u128, port }
}

fn v6(ip: u128, port: u16) -> TcpAddr {
    TcpAddr { ipv6: true, ip, port }
}

#[test]
fn test_from_nng_unspec() {
    assert!(Url::from_nng(&SockAddr::Unspec, "tcp").is_none());
}

#[test]
fn test_from_nng_inet() {
    let addr = SockAddr::Inet { port: 8080, addr: 0x7F000001 };
    let url = Url::from_nng(&addr, "tcp").unwrap();
    assert_eq!(url.as_str(), "tcp://127.0.0.1:8080");
}

#[test]
fn test_from_nng_inet6() {
    // Test without scope_id
    let addr = SockAddr::Inet6 {
        addr: [0, 0, 0, 0, 0, 0, 0, 0, 0, 0, 0, 0, 0, 0, 0, 1],
        port: 9090,
        scope: 0,
    };
    let url = Url::from_nng(&addr, "tcp").unwrap();
    assert_eq!(url.as_str(), "tcp://[::1]:9090");

    // Test with scope_id (required for link-local addresses like fe80::)
    let scoped = SockAddr::Inet6 {
        addr: [0xfe, 0x80, 0, 0, 0, 0, 0, 0, 0, 0, 0, 0, 0, 0, 0, 1], // fe80::1
        port: 9090,
        scope: 42,
    };
    let url_scoped = Url::from_nng(&scoped, "tcp").unwrap();
    assert_eq!(url_scoped.as_str(), "tcp://[fe80::1%42]:9090");
}

#[test]
fn test_from_nng_ipc() {
    let mut path = vec![0u8; 128];
    let bytes = b"/tmp/test.sock\0";
    path[..bytes.len()].copy_from_slice(bytes);
    let url = Url::from_nng(&SockAddr::Ipc { path }, "ipc").unwrap();
    assert_eq!(url.as_str(), "ipc:///tmp/test.sock");
}

#[test]
fn test_from_nng_inproc() {
    let mut name = vec![0u8; 128];
    let bytes = b"test-inproc\0";
    name[..bytes.len()].copy_from_slice(bytes);
    let url = Url::from_nng(&SockAddr::Inproc { name }, "inproc").unwrap();
    assert_eq!(url.as_str(), "inproc://test-inproc");
}

#[test]
fn test_from_nng_abstract() {
    let name = b"test\0sock\x01".to_vec();
    let url = Url::from_nng(&SockAddr::Abstract { name }, "abstract").unwrap();
    assert_eq!(url.as_str(), "abstract://test%00sock%01");
}

#[test]
fn test_from_nng_inet_edge_cases() {
    let addr = SockAddr::Inet { port: 0, addr: 0 };
    let url = Url::from_nng(&addr, "tcp").unwrap();
    assert_eq!(url.as_str(), "tcp://0.0.0.0:0");
}

#[test]
fn test_from_nng_empty_ipc_path() {
    let path = vec![0u8; 128];
    let url = Url::from_nng(&SockAddr::Ipc { path }, "ipc").unwrap();
    assert_eq!(url.as_str(), "ipc://");
}

#[test]
fn test_from_nng_zero_length_abstract() {
    let url = Url::from_nng(&SockAddr::Abstract { name: Vec::new() }, "abstract").unwrap();
    assert_eq!(url.as_str(), "abstract://");
}

#[test]
fn test_url_into_string() {
    let url = url("tcp://127.0.0.1:8080");
    assert_eq!(url.to_string(), "tcp://127.0.0.1:8080");
    let s: String = url.into();
    assert_eq!(s, "tcp://127.0.0.1:8080");
}

#[test]
fn test_url_from_for_string() {
    let url = url("ipc:///tmp/test.sock");
    let s = String::from(url);
    assert_eq!(s, "ipc:///tmp/test.sock");
}

#[test]
fn test_url_scheme() {
    assert_eq!(url("tcp://127.0.0.1:8080").scheme(), "tcp");
    assert_eq!(url("tcp4://127.0.0.1:8080").scheme(), "tcp4");
    assert_eq!(url("tcp6://[::1]:8080").scheme(), "tcp6");
    assert_eq!(url("tls+tcp://127.0.0.1:8080").scheme(), "tls+tcp");
    assert_eq!(url("ipc:///tmp/test.sock").scheme(), "ipc");
    assert_eq!(url("inproc://test").scheme(), "inproc");
    assert_eq!(url("abstract://test").scheme(), "abstract");
}

#[test]
fn test_from_nng_abstract_edge_cases() {
    // Space (0x20) is not ASCII graphic
    let url = Url::from_nng(&SockAddr::Abstract { name: b"hello world".to_vec() }, "abstract").unwrap();
    assert_eq!(url.as_str(), "abstract://hello%20world");

    // High byte (0xFF)
    let url = Url::from_nng(&SockAddr::Abstract { name: b"test\xff".to_vec() }, "abstract").unwrap();
    assert_eq!(url.as_str(), "abstract://test%ff");
}

#[test]
fn test_parse_tcp_url_schemes() {
    assert_eq!(parse_tcp_url("tcp://127.0.0.1:8080").unwrap(), v4(0x7f00_0001, 8080));
    assert_eq!(parse_tcp_url("tcp4://192.168.1.1:9090").unwrap(), v4(0xc0a8_0101, 9090));
    assert_eq!(parse_tcp_url("tcp6://[::1]:8080").unwrap(), v6(1, 8080));
    assert_eq!(parse_tcp_url("tls+tcp://10.0.0.1:443").unwrap(), v4(0x0a00_0001, 443));
    assert_eq!(parse_tcp_url("tls+tcp4://10.0.0.2:443").unwrap(), v4(0x0a00_0002, 443));
    assert_eq!(parse_tcp_url("tls+tcp6://[fe80::1]:443").unwrap(), v6((0xfe80u128 << 112) | 1, 443));
}

#[test]
fn test_parse_tcp_url_scope_id_stripping() {
    assert_eq!(parse_tcp_url("tcp://[fe80::1%42]:9090").unwrap(), v6((0xfe80u128 << 112) | 1, 9090));
    assert_eq!(parse_tcp_url("tcp6://[fe80::1%eth0]:8080").unwrap(), v6((0xfe80u128 << 112) | 1, 8080));
}

#[test]
fn test_parse_tcp_url_errors() {
    // Unknown scheme
    let err = parse_tcp_url("ipc:///tmp/socket").unwrap_err();
    assert_eq!(err.kind, IoErrorKind::InvalidData);
    assert_eq!(invalid_data(err), "unexpected URL scheme in ipc:///tmp/socket");

    // Malformed address
    let err = parse_tcp_url("tcp://not-an-address").unwrap_err();
    assert_eq!(err.kind, IoErrorKind::InvalidData);
    assert!(invalid_data(err).starts_with("failed to parse socket address from not-an-address: "));

    // Empty address
    let err = parse_tcp_url("tcp://").unwrap_err();
    assert_eq!(err.kind, IoErrorKind::InvalidData);
    assert!(invalid_data(err).starts_with("failed to parse socket address from : "));
}

#[test]
fn parse_tcp_url_reports_the_address_as_given() {
    let err = parse_tcp_url("tcp://[zz::1%7]:1").unwrap_err();
    assert!(invalid_data(err).starts_with("failed to parse socket address from [zz::1%7]:1: "));
    assert_eq!(invalid_data(parse_tcp_url("no-separator").unwrap_err()), "malformed URL: no-separator");
}

#[test]
fn tcp_urls_of_socket_addresses() {
    assert_eq!(tcp_url_of(v4(0x7f00_0001, 0)), "tcp://127.0.0.1:0");
    assert_eq!(tcp_url_of(v4(0xc0a8_0101, 9090)), "tcp://192.168.1.1:9090");
    assert_eq!(tcp_url_of(v6(1, 8080)), "tcp://[::1]:8080");
    assert_eq!(tcp_url_of(v6((0xfe80u128 << 112) | 1, 443)), "tcp://[fe80::1]:443");
    // A URL built for an address parses back into it.
    let a = v6((0x2001_0db8u128 << 96) | 0xabcd, 12345);
    assert_eq!(parse_tcp_url(&tcp_url_of(a)).unwrap(), a);
}

#[test]
fn tcp_url_address_messages() {
    assert_eq!(
        tcp_url_address("ipc:///tmp/socket"),
        Err("unexpected URL scheme in ipc:///tmp/socket".to_string())
    );
    assert_eq!(tcp_url_address("no-separator"), Err("malformed URL: no-separator".to_string()));
    assert_eq!(tcp_url_address("tcp://[fe80::1%42]:9090"), Ok("[fe80::1]:9090".to_string()));
    assert_eq!(tcp_url_address("tcp://"), Ok(String::new()));
}

#[test]
fn url_round_trip() {
    let u = url("a://b://c");
    assert_eq!(u.scheme(), "a");
    assert_eq!(u.clone().as_str(), "a://b://c");
    assert_eq!(u.to_string(), "a://b://c");
    assert_eq!(String::from(Url::new("no-separator".to_string())), "no-separator");
}

#[test]
fn from_nng_decodes_names_lossily() {
    let url = Url::from_nng(&SockAddr::Inproc { name: b"bad\xffname".to_vec() }, "inproc").unwrap();
    assert_eq!(url.as_str(), "inproc://bad\u{fffd}name");
}

#[test]
fn tcp_options_default() {
    let opts = TcpOptions::default();
    assert!(opts.no_delay);
    assert!(!opts.keep_alive);
}

#[test]
fn url_from_sprintf_outcomes() {
    let mut buf = [0u8; 144];
    let text = b"tcp://127.0.0.1:5555";
    buf[..text.len()].copy_from_slice(text);
    let url = Url::from_sprintf(&buf, text.len() as i32).unwrap();
    assert_eq!(url.as_str(), "tcp://127.0.0.1:5555");
    assert_eq!(url.scheme(), "tcp");

    assert_eq!(invalid_data(Url::from_sprintf(&buf, -1).unwrap_err()), "nng_url_sprintf failed");
    assert_eq!(
        invalid_data(Url::from_sprintf(&buf, 0).unwrap_err()),
        "nng_url_sprintf returned empty URL"
    );
    buf[0] = 0xff;
    assert_eq!(
        invalid_data(Url::from_sprintf(&buf, text.len() as i32).unwrap_err()),
        "URL is not valid UTF-8"
    );
    // Text without a scheme is taken as NNG wrote it.
    assert_eq!(Url::from_sprintf(b"abc", 3).unwrap().as_str(), "abc");
}
