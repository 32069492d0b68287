use rust_proxy::uri::UrlParts;
use rust_proxy::{find_request_end, parse_host_port, parse_request, ParsedRequest, RequestError};

fn parsed(bytes: &[u8]) -> ParsedRequest {
    match parse_request(bytes) {
        Ok(request) => request,
        Err(e) => panic!("expected a request, got {:?}", e),
    }
}

fn refused(bytes: &[u8]) -> RequestError {
    match parse_request(bytes) {
        Ok(_) => panic!("expected an error"),
        Err(e) => e,
    }
}

#[test]
fn test_http_request_parsing() {
    let http_request = b"GET http://example.com HTTP/1.1\r\nHost: example.com\r\n\r\n";
    let request = parsed(http_request);
    assert_eq!(request.method(), "GET");
    assert_eq!(request.target(), "http://example.com");
    assert_eq!(request.scheme().as_deref(), Some("http"));
    assert_eq!(request.host(), "example.com");
    assert_eq!(request.port(), 80);
    assert!(!request.is_connect());
}

#[test]
fn test_connect_request_parsing() {
    let connect_request = b"CONNECT example.com:443 HTTP/1.1\r\nHost: example.com:443\r\n\r\n";
    let request = parsed(connect_request);
    assert_eq!(request.method(), "CONNECT");
    assert_eq!(request.target(), "example.com:443");
    assert_eq!(request.scheme(), &None);
    assert_eq!(request.host(), "example.com");
    assert_eq!(request.port(), 443);
    assert!(request.is_connect());
}

#[test]
fn header_end_is_four_past_the_first_marker() {
    assert_eq!(find_request_end(b"\r\n\r\n"), 4);
    assert_eq!(find_request_end(b"ab\r\n\r\ncd\r\n\r\n"), 6);
    assert_eq!(find_request_end(b"\r\n\r\n\r\n"), 4);
    assert_eq!(find_request_end(b"x\r\r\n\r\n"), 6);
}

#[test]
fn header_end_is_the_length_without_a_marker() {
    assert_eq!(find_request_end(b""), 0);
    assert_eq!(find_request_end(b"\r\n\r"), 3);
    assert_eq!(find_request_end(b"\r\n\n\r\n"), 5);
    assert_eq!(find_request_end(b"abcdefg"), 7);
}

#[test]
fn host_port_splits_at_the_first_colon() {
    assert_eq!(parse_host_port("h:8080", 443), ("h", 8080));
    assert_eq!(parse_host_port("h", 443), ("h", 443));
    assert_eq!(parse_host_port("h:xyz", 443), ("h", 443));
    assert_eq!(parse_host_port("h:", 443), ("h", 443));
    assert_eq!(parse_host_port("a:b:80", 7), ("a", 7));
    assert_eq!(parse_host_port(":80", 7), ("", 80));
    assert_eq!(parse_host_port("", 7), ("", 7));
    assert_eq!(parse_host_port("h\u{e9}te:81", 7), ("h\u{e9}te", 81));
}

#[test]
fn port_is_a_plain_16_bit_decimal() {
    assert_eq!(parse_host_port("h:0", 9), ("h", 0));
    assert_eq!(parse_host_port("h:65535", 9), ("h", 65535));
    assert_eq!(parse_host_port("h:65536", 9), ("h", 9));
    assert_eq!(parse_host_port("h:99999999999999999999", 9), ("h", 9));
    assert_eq!(parse_host_port("h:00080", 9), ("h", 80));
    assert_eq!(parse_host_port("h:+80", 9), ("h", 80));
    assert_eq!(parse_host_port("h:+", 9), ("h", 9));
    assert_eq!(parse_host_port("h:-80", 9), ("h", 9));
    assert_eq!(parse_host_port("h: 80", 9), ("h", 9));
    assert_eq!(parse_host_port("h:80 ", 9), ("h", 9));
    assert_eq!(parse_host_port("h:8_0", 9), ("h", 9));
    assert_eq!(parse_host_port("h:0x50", 9), ("h", 9));
}

#[test]
fn fewer_than_three_words_is_malformed() {
    assert_eq!(refused(b"Invalid request\r\n\r\n"), RequestError::Malformed);
    assert_eq!(refused(b""), RequestError::Malformed);
    assert_eq!(refused(b"\r\n\r\n"), RequestError::Malformed);
    assert_eq!(refused(b"   \t "), RequestError::Malformed);
    assert_eq!(refused(b"GET"), RequestError::Malformed);
    assert_eq!(refused(b"CONNECT example.com:443"), RequestError::Malformed);
}

#[test]
fn only_the_first_line_counts() {
    assert_eq!(refused(b"GET\nhttp://example.com/ HTTP/1.1\r\n\r\n"), RequestError::Malformed);
    assert_eq!(refused(b"\nGET http://example.com/ HTTP/1.1\r\n\r\n"), RequestError::Malformed);
    let request = parsed(b"GET http://example.com/ HTTP/1.1\nCONNECT other:1 HTTP/1.1\r\n\r\n");
    assert_eq!(request.host(), "example.com");
}

#[test]
fn more_than_three_words_is_accepted() {
    let request = parsed(b"GET http://example.com:8080/a HTTP/1.1 and more\r\n\r\n");
    assert_eq!(request.method(), "GET");
    assert_eq!(request.target(), "http://example.com:8080/a");
    assert_eq!(request.port(), 8080);
}

#[test]
fn words_are_split_on_any_whitespace() {
    let request = parsed(b"  \tCONNECT \x0b example.com:8443\x0c\x0cHTTP/1.1\r\n\r\n");
    assert_eq!(request.method(), "CONNECT");
    assert_eq!(request.host(), "example.com");
    assert_eq!(request.port(), 8443);
    // U+00A0 and U+2003 are whitespace too
    let request = parsed("GET\u{a0}http://example.com/\u{2003}HTTP/1.1\r\n\r\n".as_bytes());
    assert_eq!(request.method(), "GET");
    assert_eq!(request.target(), "http://example.com/");
    // U+200B is not
    assert_eq!(
        refused("GET\u{200b}http://example.com/\u{200b}HTTP/1.1\r\n\r\n".as_bytes()),
        RequestError::Malformed
    );
}

#[test]
fn connect_is_recognised_in_any_case() {
    assert!(parsed(b"connect example.com:1 HTTP/1.1\r\n\r\n").is_connect());
    assert!(parsed(b"CoNnEcT example.com:1 HTTP/1.1\r\n\r\n").is_connect());
    // any other method has its target read as a URI: here one with the
    // scheme `example.com` and no host
    assert_eq!(refused(b"CONNECTS example.com:1 HTTP/1.1\r\n\r\n"), RequestError::MissingHost);
    assert_eq!(refused(b"CONNEC example.com:1 HTTP/1.1\r\n\r\n"), RequestError::MissingHost);
    assert!(!parsed(b"CONNECTS http://example.com:1 HTTP/1.1\r\n\r\n").is_connect());
}

#[test]
fn connect_port_defaults_to_443() {
    assert_eq!(parsed(b"CONNECT example.com HTTP/1.1\r\n\r\n").port(), 443);
    assert_eq!(parsed(b"CONNECT example.com: HTTP/1.1\r\n\r\n").port(), 443);
    assert_eq!(parsed(b"CONNECT example.com:https HTTP/1.1\r\n\r\n").port(), 443);
    assert_eq!(parsed(b"CONNECT example.com:70000 HTTP/1.1\r\n\r\n").port(), 443);
    assert_eq!(parsed(b"CONNECT example.com:8443 HTTP/1.1\r\n\r\n").port(), 8443);
}

#[test]
fn a_request_without_endpoint_is_refused() {
    assert_eq!(refused(b"CONNECT :443 HTTP/1.1\r\n\r\n"), RequestError::MissingHost);
    assert_eq!(refused(b"CONNECT example.com:0 HTTP/1.1\r\n\r\n"), RequestError::InvalidPort);
    assert_eq!(refused(b"GET http://example.com:0/ HTTP/1.1\r\n\r\n"), RequestError::InvalidPort);
    assert_eq!(refused(b"GET unix:/run/foo.socket HTTP/1.1\r\n\r\n"), RequestError::MissingHost);
    assert_eq!(refused(b"GET data:text/plain,Stuff HTTP/1.1\r\n\r\n"), RequestError::MissingHost);
}

#[test]
fn a_target_that_is_no_absolute_uri_is_refused() {
    assert_eq!(refused(b"GET /index.html HTTP/1.1\r\n\r\n"), RequestError::InvalidUri);
    assert_eq!(refused(b"GET example.com HTTP/1.1\r\n\r\n"), RequestError::InvalidUri);
    assert_eq!(refused(b"GET http:// HTTP/1.1\r\n\r\n"), RequestError::InvalidUri);
}

#[test]
fn scheme_decides_the_default_port() {
    assert_eq!(parsed(b"GET http://example.com/ HTTP/1.1\r\n\r\n").port(), 80);
    assert_eq!(parsed(b"GET https://example.com/ HTTP/1.1\r\n\r\n").port(), 443);
    assert_eq!(parsed(b"GET ftp://example.com/ HTTP/1.1\r\n\r\n").port(), 80);
    assert_eq!(parsed(b"GET ws://example.com/ HTTP/1.1\r\n\r\n").port(), 80);
    assert_eq!(parsed(b"GET https://example.com:8443/ HTTP/1.1\r\n\r\n").port(), 8443);
    assert_eq!(parsed(b"POST http://example.com:3131 HTTP/1.1\r\n\r\n").port(), 3131);
}

#[test]
fn the_uri_parser_normalises_scheme_and_host() {
    let request = parsed(b"GET HTTP://EXAMPLE.COM/Path HTTP/1.1\r\n\r\n");
    assert_eq!(request.target(), "HTTP://EXAMPLE.COM/Path");
    assert_eq!(request.scheme().as_deref(), Some("http"));
    assert_eq!(request.host(), "example.com");
    let request = parsed(b"GET HTTPS://EXAMPLE.COM HTTP/1.1\r\n\r\n");
    assert_eq!(request.scheme().as_deref(), Some("https"));
    assert_eq!(request.port(), 443);
    let request = parsed(b"GET http://user:pw@127.0.0.1:3131/ HTTP/1.1\r\n\r\n");
    assert_eq!(request.host(), "127.0.0.1");
    assert_eq!(request.port(), 3131);
    let request = parsed(b"GET http://[::1]:8080/ HTTP/1.1\r\n\r\n");
    assert_eq!(request.host(), "[::1]");
}

#[test]
fn invalid_utf8_is_replaced() {
    let request = parsed(b"G\xffT http://example.com/ HTTP/1.1\r\n\r\n");
    assert_eq!(request.method(), "G\u{fffd}T");
    let request = parsed(b"CONNECT ex\xc3\x28.com:81 HTTP/1.1\r\n\r\n");
    assert_eq!(request.host(), "ex\u{fffd}(.com");
    assert_eq!(request.port(), 81);
}

#[test]
fn what_follows_the_head_is_not_read() {
    let request = parsed(b"CONNECT a.example:1 HTTP/1.1\r\n\r\n\xff\xfe binary body \n\n");
    assert_eq!(request.host(), "a.example");
    assert_eq!(request.port(), 1);
}

fn parts(scheme: &str, host: Option<&str>, port: Option<u16>) -> Option<UrlParts> {
    Some(UrlParts { scheme: scheme.to_string(), host: host.map(String::from), port })
}

#[test]
fn forward_reads_the_parts_of_the_uri() {
    let get = || "GET".to_string();
    let target = || "t".to_string();
    let request = ParsedRequest::forward(get(), target(), parts("https", Some("h"), None));
    let request = request.unwrap();
    assert_eq!(request.method(), "GET");
    assert_eq!(request.target(), "t");
    assert_eq!(request.scheme().as_deref(), Some("https"));
    assert_eq!(request.host(), "h");
    assert_eq!(request.port(), 443);
    let request = ParsedRequest::forward(get(), target(), parts("HTTPS", Some("h"), None));
    assert_eq!(request.unwrap().port(), 80);
    let request = ParsedRequest::forward(get(), target(), parts("gopher", Some("h"), Some(70)));
    assert_eq!(request.unwrap().port(), 70);
    assert_eq!(
        ParsedRequest::forward(get(), target(), None).err(),
        Some(RequestError::InvalidUri)
    );
    assert_eq!(
        ParsedRequest::forward(get(), target(), parts("http", None, Some(1))).err(),
        Some(RequestError::MissingHost)
    );
    assert_eq!(
        ParsedRequest::forward(get(), target(), parts("http", Some(""), Some(1))).err(),
        Some(RequestError::MissingHost)
    );
    assert_eq!(
        ParsedRequest::forward(get(), target(), parts("http", Some("h"), Some(0))).err(),
        Some(RequestError::InvalidPort)
    );
}

#[test]
fn connect_reads_host_and_port_from_the_target() {
    let request = ParsedRequest::connect("CONNECT".to_string(), "h:8080".to_string()).unwrap();
    assert_eq!(request.host(), "h");
    assert_eq!(request.port(), 8080);
    assert_eq!(request.scheme(), &None);
    assert_eq!(
        ParsedRequest::connect("CONNECT".to_string(), ":1".to_string()).err(),
        Some(RequestError::MissingHost)
    );
    assert_eq!(
        ParsedRequest::connect("CONNECT".to_string(), "h:0".to_string()).err(),
        Some(RequestError::InvalidPort)
    );
}
