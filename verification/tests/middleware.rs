use visit_counter::middleware::{
    body_size, header_value, make_span, on_response, protocol_version, split_host, Completion,
    HostParts, HttpVersion, RequestMeta, ResponseMeta,
};
use visit_counter::span::{Key, Span, Value};

fn bare_request() -> RequestMeta {
    RequestMeta {
        method: String::from("GET"),
        scheme: None,
        path: String::from("/"),
        query: None,
        version: HttpVersion::Http11,
        host: None,
        user_agent: None,
        content_length: None,
    }
}

fn text(s: &str) -> Value {
    Value::Text(String::from(s))
}

fn raw(s: &str) -> Option<Vec<u8>> {
    Some(s.as_bytes().to_vec())
}

fn keys_of(span: &Span) -> Vec<Key> {
    span.attributes().iter().map(|a| a.key).collect()
}

#[test]
fn request_without_host_and_query_leaves_them_unset() {
    let span = make_span(&bare_request());
    assert_eq!(span.get(Key::ServerAddress), None);
    assert_eq!(span.get(Key::ServerPort), None);
    assert_eq!(span.get(Key::UrlQuery), None);
    assert_eq!(span.get(Key::HttpRequestMethod), Some(&text("GET")));
    assert_eq!(span.get(Key::UrlPath), Some(&text("/")));
    assert_eq!(span.get(Key::UrlScheme), Some(&text("http")));
}

#[test]
fn bare_request_sets_exactly_the_unconditional_attributes() {
    let span = make_span(&bare_request());
    assert_eq!(span.name(), "http_request");
    assert_eq!(
        keys_of(&span),
        vec![
            Key::HttpRequestMethod,
            Key::UrlPath,
            Key::UrlScheme,
            Key::NetworkProtocolName,
            Key::NetworkTransport,
            Key::NetworkProtocolVersion,
            Key::OtelName,
        ]
    );
    assert_eq!(span.get(Key::NetworkProtocolName), Some(&text("http")));
    assert_eq!(span.get(Key::NetworkTransport), Some(&text("tcp")));
    assert_eq!(span.get(Key::NetworkProtocolVersion), Some(&text("1.1")));
    assert_eq!(span.get(Key::OtelName), Some(&text("GET /")));
}

#[test]
fn full_request_sets_every_request_attribute() {
    let request = RequestMeta {
        method: String::from("POST"),
        scheme: Some(String::from("https")),
        path: String::from("/visits/today"),
        query: Some(String::from("a=1&b=2")),
        version: HttpVersion::Http2,
        host: raw("example.com:8443"),
        user_agent: raw("curl/8.5.0"),
        content_length: raw("512"),
    };
    let span = make_span(&request);
    assert_eq!(
        keys_of(&span),
        vec![
            Key::HttpRequestMethod,
            Key::UrlPath,
            Key::UrlScheme,
            Key::NetworkProtocolName,
            Key::NetworkTransport,
            Key::UrlQuery,
            Key::ServerAddress,
            Key::ServerPort,
            Key::UserAgentOriginal,
            Key::NetworkProtocolVersion,
            Key::HttpRequestBodySize,
            Key::OtelName,
        ]
    );
    assert_eq!(span.get(Key::HttpRequestMethod), Some(&text("POST")));
    assert_eq!(span.get(Key::UrlPath), Some(&text("/visits/today")));
    assert_eq!(span.get(Key::UrlScheme), Some(&text("https")));
    assert_eq!(span.get(Key::UrlQuery), Some(&text("a=1&b=2")));
    assert_eq!(span.get(Key::ServerAddress), Some(&text("example.com")));
    assert_eq!(span.get(Key::ServerPort), Some(&Value::Number(8443)));
    assert_eq!(span.get(Key::UserAgentOriginal), Some(&text("curl/8.5.0")));
    assert_eq!(span.get(Key::NetworkProtocolVersion), Some(&text("2")));
    assert_eq!(span.get(Key::HttpRequestBodySize), Some(&Value::Number(512)));
    assert_eq!(span.get(Key::OtelName), Some(&text("POST /visits/today")));
}

#[test]
fn no_response_attribute_is_set_before_the_response() {
    let mut request = bare_request();
    request.host = raw("example.com");
    request.content_length = raw("3");
    let span = make_span(&request);
    for key in [
        Key::HttpResponseStatusCode,
        Key::HttpResponseBodySize,
        Key::HttpResponseSize,
        Key::HttpRoute,
        Key::HttpRequestSize,
        Key::ClientAddress,
        Key::ClientPort,
        Key::NetworkPeerAddress,
        Key::NetworkPeerPort,
    ] {
        assert_eq!(span.get(key), None);
    }
}

#[test]
fn host_with_port_is_split_at_the_colon() {
    let parts = split_host("example.com:8080", "http");
    assert_eq!(parts, HostParts { address: String::from("example.com"), port: Some(8080) });
}

#[test]
fn host_without_port_takes_the_port_of_https() {
    let parts = split_host("example.com", "https");
    assert_eq!(parts, HostParts { address: String::from("example.com"), port: Some(443) });
}

#[test]
fn host_without_port_takes_the_port_of_http() {
    let parts = split_host("example.com", "http");
    assert_eq!(parts, HostParts { address: String::from("example.com"), port: Some(80) });
}

#[test]
fn host_without_port_and_with_another_scheme_has_no_port() {
    for scheme in ["ws", "", "HTTP", "httpss", "htt"] {
        let parts = split_host("example.com", scheme);
        assert_eq!(parts, HostParts { address: String::from("example.com"), port: None });
    }
}

#[test]
fn host_is_split_at_its_last_colon() {
    assert_eq!(
        split_host("[::1]:3000", "http"),
        HostParts { address: String::from("[::1]"), port: Some(3000) }
    );
    assert_eq!(
        split_host("[::1]", "https"),
        HostParts { address: String::from("[:"), port: None }
    );
    assert_eq!(split_host("a:1:2", "http"), HostParts { address: String::from("a:1"), port: Some(2) });
}

#[test]
fn port_that_is_no_port_number_is_left_out() {
    assert_eq!(split_host("example.com:", "http").port, None);
    assert_eq!(split_host("example.com:http", "http").port, None);
    assert_eq!(split_host("example.com:65536", "http").port, None);
    assert_eq!(split_host("example.com:-1", "http").port, None);
    assert_eq!(split_host("example.com: 80", "http").port, None);
    assert_eq!(split_host("example.com:65535", "http").port, Some(65535));
    assert_eq!(split_host("example.com:0", "https").port, Some(0));
    assert_eq!(split_host("example.com:+80", "https").port, Some(80));
    assert_eq!(split_host("example.com:", "http").address, "example.com");
    assert_eq!(split_host(":80", "http"), HostParts { address: String::new(), port: Some(80) });
    assert_eq!(split_host("", "http"), HostParts { address: String::new(), port: Some(80) });
}

#[test]
fn span_takes_address_and_port_from_the_host_header() {
    let mut request = bare_request();
    request.host = raw("example.com:8080");
    let span = make_span(&request);
    assert_eq!(span.get(Key::ServerAddress), Some(&text("example.com")));
    assert_eq!(span.get(Key::ServerPort), Some(&Value::Number(8080)));

    request.host = raw("example.com");
    request.scheme = Some(String::from("https"));
    let span = make_span(&request);
    assert_eq!(span.get(Key::ServerAddress), Some(&text("example.com")));
    assert_eq!(span.get(Key::ServerPort), Some(&Value::Number(443)));
}

#[test]
fn request_without_scheme_counts_as_http() {
    let mut request = bare_request();
    request.host = raw("example.com");
    let span = make_span(&request);
    assert_eq!(span.get(Key::UrlScheme), Some(&text("http")));
    assert_eq!(span.get(Key::ServerPort), Some(&Value::Number(80)));
}

#[test]
fn unknown_scheme_leaves_the_port_unset_but_not_the_address() {
    let mut request = bare_request();
    request.scheme = Some(String::from("ftp"));
    request.host = raw("example.com");
    let span = make_span(&request);
    assert_eq!(span.get(Key::UrlScheme), Some(&text("ftp")));
    assert_eq!(span.get(Key::ServerAddress), Some(&text("example.com")));
    assert_eq!(span.get(Key::ServerPort), None);
}

#[test]
fn header_text_is_the_bytes_as_characters() {
    assert_eq!(header_value(&None), None);
    assert_eq!(header_value(&Some(Vec::new())), Some(String::new()));
    assert_eq!(header_value(&raw("Mozilla/5.0 (X11)")), Some(String::from("Mozilla/5.0 (X11)")));
    assert_eq!(header_value(&Some(vec![b'a', b'\t', b' ', b'~'])), Some(String::from("a\t ~")));
}

#[test]
fn header_with_other_bytes_has_no_text() {
    assert_eq!(header_value(&Some(vec![b'a', 0x80])), None);
    assert_eq!(header_value(&Some(vec![0xff])), None);
    assert_eq!(header_value(&Some(vec![b'a', 0x7f])), None);
    assert_eq!(header_value(&Some(vec![b'a', 0x1f])), None);
    assert_eq!(header_value(&Some(vec![b'a', b'\n'])), None);
    assert_eq!(header_value(&Some(vec![0])), None);
    assert_eq!(header_value(&raw("héllo")), None);
}

#[test]
fn every_single_byte_is_judged_by_its_range() {
    for b in 0u8..=255 {
        let visible = (32..127).contains(&b) || b == 9;
        let expected = if visible { Some(String::from(b as char)) } else { None };
        assert_eq!(header_value(&Some(vec![b])), expected, "byte {}", b);
    }
}

#[test]
fn headers_without_text_leave_their_attributes_unset() {
    let mut request = bare_request();
    request.host = Some(vec![b'h', 0xe9, b':', b'8', b'0']);
    request.user_agent = Some(vec![0xc3, 0xa9]);
    request.content_length = Some(vec![b'1', 0x80]);
    let span = make_span(&request);
    assert_eq!(span.get(Key::ServerAddress), None);
    assert_eq!(span.get(Key::ServerPort), None);
    assert_eq!(span.get(Key::UserAgentOriginal), None);
    assert_eq!(span.get(Key::HttpRequestBodySize), None);
}

#[test]
fn body_size_is_unset_unless_it_parses() {
    assert_eq!(body_size(&None), None);
    assert_eq!(body_size(&raw("0")), Some(0));
    assert_eq!(body_size(&raw("1024")), Some(1024));
    assert_eq!(body_size(&raw("18446744073709551615")), Some(u64::MAX));
    assert_eq!(body_size(&raw("18446744073709551616")), None);
    assert_eq!(body_size(&raw("")), None);
    assert_eq!(body_size(&raw("12 ")), None);
    assert_eq!(body_size(&raw("-1")), None);
    assert_eq!(body_size(&raw("ten")), None);

    let mut request = bare_request();
    request.content_length = raw("ten");
    assert_eq!(make_span(&request).get(Key::HttpRequestBodySize), None);
    request.content_length = raw("0");
    assert_eq!(make_span(&request).get(Key::HttpRequestBodySize), Some(&Value::Number(0)));
}

#[test]
fn versions_have_their_tokens() {
    assert_eq!(protocol_version(HttpVersion::Http09), "0.9");
    assert_eq!(protocol_version(HttpVersion::Http10), "1.0");
    assert_eq!(protocol_version(HttpVersion::Http11), "1.1");
    assert_eq!(protocol_version(HttpVersion::Http2), "2");
    assert_eq!(protocol_version(HttpVersion::Http3), "3");
    assert_eq!(protocol_version(HttpVersion::Unknown), "unknown");

    let mut request = bare_request();
    request.version = HttpVersion::Unknown;
    assert_eq!(make_span(&request).get(Key::NetworkProtocolVersion), Some(&text("unknown")));
}

#[test]
fn response_records_status_and_body_size() {
    let mut span = make_span(&bare_request());
    let response = ResponseMeta { status: 200, content_length: raw("38") };
    let done = on_response(&response, 12, &mut span);
    assert_eq!(done, Completion { status_code: 200, latency_ms: 12 });
    assert_eq!(span.get(Key::HttpResponseStatusCode), Some(&Value::Number(200)));
    assert_eq!(span.get(Key::HttpResponseBodySize), Some(&Value::Number(38)));
    assert_eq!(span.name(), "http_request");
    assert_eq!(span.get(Key::HttpRequestMethod), Some(&text("GET")));
    assert_eq!(span.get(Key::OtelName), Some(&text("GET /")));
}

#[test]
fn response_without_usable_length_records_only_the_status() {
    for length in [None, raw("many"), raw(""), Some(vec![b'1', 0xff])] {
        let mut span = make_span(&bare_request());
        let before = span.attributes().len();
        let done = on_response(&ResponseMeta { status: 503, content_length: length }, 0, &mut span);
        assert_eq!(done, Completion { status_code: 503, latency_ms: 0 });
        assert_eq!(span.get(Key::HttpResponseStatusCode), Some(&Value::Number(503)));
        assert_eq!(span.get(Key::HttpResponseBodySize), None);
        assert_eq!(span.attributes().len(), before + 1);
    }
}

#[test]
fn response_attributes_are_not_overwritten() {
    let mut span = make_span(&bare_request());
    on_response(&ResponseMeta { status: 200, content_length: raw("5") }, 1, &mut span);
    let done = on_response(&ResponseMeta { status: 500, content_length: raw("9") }, 2, &mut span);
    assert_eq!(done, Completion { status_code: 500, latency_ms: 2 });
    assert_eq!(span.get(Key::HttpResponseStatusCode), Some(&Value::Number(200)));
    assert_eq!(span.get(Key::HttpResponseBodySize), Some(&Value::Number(5)));
}

#[test]
fn latency_is_handed_through_whole() {
    let mut span = Span::new("s");
    let done = on_response(&ResponseMeta { status: 204, content_length: None }, u128::MAX, &mut span);
    assert_eq!(done.latency_ms, u128::MAX);
    assert_eq!(done.status_code, 204);
}
