use axum::http::{HeaderMap, HeaderValue};
use transport::address::{
    address_host, core_endpoint, endpoint_identifiers, fix_ws_address, server_query, url_part, uses_tls, AddressError,
};
use transport::identifiers::{
    compute_accept, take_accept, ConnectionIdentifiers, HeaderError, ServerHeaderIdentifiers,
};

#[test]
fn ws_addresses() {
    assert_eq!(fix_ws_address("server.domain"), "wss://server.domain");
    assert_eq!(fix_ws_address("http://server.domain"), "ws://server.domain");
    assert_eq!(fix_ws_address("https://server.domain"), "wss://server.domain");
    assert_eq!(fix_ws_address("ws://server.domain"), "ws://server.domain");
    assert_eq!(fix_ws_address("wss://server.domain"), "wss://server.domain");
    assert_eq!(fix_ws_address("http://a/http://b"), "ws://a/ws://b");
    assert_eq!(fix_ws_address(""), "wss://");
    assert_eq!(fix_ws_address(&fix_ws_address("https://x")), fix_ws_address("https://x"));
}

#[test]
fn tls_follows_the_scheme() {
    assert!(uses_tls(&fix_ws_address("https://server.domain")));
    assert!(uses_tls(&fix_ws_address("server.domain")));
    assert!(!uses_tls(&fix_ws_address("http://server.domain")));
    assert!(!uses_tls(&fix_ws_address("ws://server.domain")));
}

#[test]
fn queries_are_percent_encoded() {
    assert_eq!(server_query("my server/1"), "server=my%20server%2F1");
    assert_eq!(server_query("a-b_c.d~e"), "server=a-b_c.d~e");
    assert_eq!(
        core_endpoint("https://core.domain", "one two"),
        "wss://core.domain/ws/periphery?server=one%20two"
    );
}

#[test]
fn hosts_and_queries_of_urls() {
    assert_eq!(address_host("wss://server.domain:8120/path"), Ok(b"server.domain".to_vec()));
    assert_eq!(address_host("not a url"), Err(AddressError::InvalidUrl));
    assert_eq!(address_host("data:text"), Err(AddressError::NoHost));
    assert_eq!(
        endpoint_identifiers("wss://core.domain/ws/periphery?server=one%20two"),
        Ok((b"core.domain".to_vec(), b"server=one%20two".to_vec()))
    );
    assert_eq!(endpoint_identifiers("wss://core.domain/"), Err(AddressError::NoQuery));
    assert_eq!(endpoint_identifiers("data:text"), Err(AddressError::NoHost));
    assert_eq!(endpoint_identifiers("::"), Err(AddressError::InvalidUrl));
    assert_eq!(url_part(Some("é".to_string()), AddressError::NoHost), Ok(vec![0xc3, 0xa9]));
    assert_eq!(url_part(None, AddressError::NoQuery), Err(AddressError::NoQuery));
}

#[test]
fn accept_of_the_sample_key() {
    assert_eq!(compute_accept(b"dGhlIHNhbXBsZSBub25jZQ=="), "s3pPLMBiTxaQ9kYGzzhZRbK+xOo=");
}

#[test]
fn prologue_digest() {
    let ids = ConnectionIdentifiers { host: b"example.com", query: b"server=one", accept: b"abc" };
    let expected: [u8; 32] = [
        0x5e, 0xa5, 0xf6, 0xd6, 0x92, 0x98, 0xd7, 0x85, 0x0e, 0x8a, 0x28, 0xd7, 0x60, 0x0c, 0x7e, 0xe9, 0x9a, 0x39,
        0xe3, 0x11, 0x29, 0x4b, 0xc7, 0x91, 0xd1, 0x58, 0x69, 0x60, 0x0f, 0xb2, 0xf3, 0x6d,
    ];
    assert_eq!(ids.hash(&[1, 2, 3]), expected);
    assert_ne!(ids.hash(&[1, 2, 4]), expected);
}

fn headers(entries: &[(&'static str, &'static str)]) -> HeaderMap {
    let mut headers = HeaderMap::new();
    for (name, value) in entries {
        headers.append(*name, HeaderValue::from_static(value));
    }
    headers
}

#[test]
fn identifiers_are_taken_out_of_headers() {
    let mut map = headers(&[
        ("host", "inner"),
        ("x-forwarded-host", "outer"),
        ("x-forwarded-host", "second"),
        ("sec-websocket-key", "dGhlIHNhbXBsZSBub25jZQ=="),
        ("accept", "kept"),
    ]);
    let ids = ServerHeaderIdentifiers::extract(&mut map).ok().unwrap();
    assert_eq!(ids.host, b"outer".to_vec());
    assert_eq!(ids.accept, "s3pPLMBiTxaQ9kYGzzhZRbK+xOo=");
    assert_eq!(map.len(), 1);
    assert!(map.contains_key("accept"));
    let built = ids.build(b"server=one");
    assert_eq!(built.host, b"outer");
    assert_eq!(built.query, b"server=one");
    assert_eq!(built.accept, b"s3pPLMBiTxaQ9kYGzzhZRbK+xOo=");
}

#[test]
fn host_header_is_used_where_none_is_forwarded() {
    let mut map = headers(&[("host", "inner"), ("sec-websocket-key", "k")]);
    let ids = ServerHeaderIdentifiers::extract(&mut map).ok().unwrap();
    assert_eq!(ids.host, b"inner".to_vec());
    assert_eq!(map.len(), 0);
}

#[test]
fn missing_headers_are_refused() {
    let mut map = headers(&[("sec-websocket-key", "k")]);
    assert_eq!(ServerHeaderIdentifiers::extract(&mut map).err(), Some(HeaderError::NoHost));
    assert!(map.contains_key("sec-websocket-key"));
    let mut map = headers(&[("host", "inner"), ("x-forwarded-host", "outer")]);
    assert_eq!(ServerHeaderIdentifiers::extract(&mut map).err(), Some(HeaderError::NoKey));
    assert_eq!(map.len(), 0);
}

#[test]
fn accept_header_is_taken() {
    let mut map = headers(&[("sec-websocket-accept", "value")]);
    assert_eq!(take_accept(&mut map), Some(b"value".to_vec()));
    assert_eq!(take_accept(&mut map), None);
}
