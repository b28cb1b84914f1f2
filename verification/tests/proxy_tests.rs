use openfeedback::providers::proxy::{
    connect_request, parse_proxy_url, scan_connect_reply, select_proxy, ConnectReply,
};

#[test]
fn proxy_urls() {
    assert_eq!(parse_proxy_url("http://proxy.local:3128"), ("proxy.local".to_string(), 3128));
    assert_eq!(parse_proxy_url("HTTP://proxy.local:8080/"), ("proxy.local".to_string(), 8080));
    assert_eq!(parse_proxy_url("http://user:pw@proxy.local:3128/path"), ("proxy.local".to_string(), 3128));
    assert_eq!(parse_proxy_url("proxy.local"), ("proxy.local".to_string(), 80));
    assert_eq!(parse_proxy_url("proxy.local:notaport"), ("proxy.local".to_string(), 80));
    assert_eq!(parse_proxy_url("proxy.local:99999"), ("proxy.local".to_string(), 80));
    assert_eq!(parse_proxy_url("https://proxy.local:443"), ("https".to_string(), 80));
    assert_eq!(parse_proxy_url("http://a@b@host:1///"), ("host".to_string(), 1));
    assert_eq!(parse_proxy_url(""), ("".to_string(), 80));
}

#[test]
fn connect_request_text() {
    assert_eq!(
        connect_request("gateway.discord.gg", 443),
        "CONNECT gateway.discord.gg:443 HTTP/1.1\r\nHost: gateway.discord.gg:443\r\n\r\n"
    );
}

#[test]
fn connect_replies() {
    let ok = b"HTTP/1.1 200 Connection established\r\n\r\n";
    assert!(matches!(scan_connect_reply(ok, ok.len()), ConnectReply::Established));
    assert!(matches!(scan_connect_reply(ok, 20), ConnectReply::Incomplete));
    let refused = b"HTTP/1.1 407 Proxy Authentication Required\r\nX: y\r\n\r\n";
    match scan_connect_reply(refused, refused.len()) {
        ConnectReply::Refused(line) => assert_eq!(line, b"HTTP/1.1 407 Proxy Authentication Required".to_vec()),
        _ => panic!("expected a refusal"),
    }
    let mut buf = vec![0u8; 2048];
    buf[..ok.len()].copy_from_slice(ok);
    assert!(matches!(scan_connect_reply(&buf, ok.len()), ConnectReply::Established));
}

#[test]
fn proxy_selection_order() {
    let s = |v: &str| Some(v.to_string());
    assert_eq!(select_proxy(s("a"), s("b"), s("c"), s("d")), s("a"));
    assert_eq!(select_proxy(None, s("b"), s("c"), s("d")), s("b"));
    assert_eq!(select_proxy(None, None, s("c"), s("d")), s("c"));
    assert_eq!(select_proxy(None, None, None, s("d")), s("d"));
    assert_eq!(select_proxy(None, None, None, None), None);
}
