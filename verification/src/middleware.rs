//! The request span: what is recorded when a request arrives, and what is added
//! when its response is ready.
//!
//! A request is described by plain values (`RequestMeta`); header values are the
//! raw bytes that came over the wire. An attribute is recorded only where it can
//! be derived from the request, and is otherwise left unset.

use crate::decimal::{
    is_digit,
    lemma_numeral_value,
    lemma_parse_numeral,
    numeral,
    parse_chars,
    parse_u64,
    parse_unsigned,
};
use crate::span::{Key, Span, Value, ValueView, record_once};
use crate::text::{chars_of, find_last, last_index_of, lemma_last_index_of, same_text};
use vstd::prelude::*;
use vstd::slice::slice_subrange;

verus! {

/// The protocol version of a request.
#[derive(Clone, Copy, Debug, PartialEq, Eq, Structural)]
pub enum HttpVersion {
    Http09,
    Http10,
    Http11,
    Http2,
    Http3,
    /// A version that this schema has no token for.
    Unknown,
}

/// What the middleware reads of a request.
#[derive(Clone, Debug, PartialEq, Eq)]
pub struct RequestMeta {
    pub method: String,
    /// The scheme of the request's target, where the target names one.
    pub scheme: Option<String>,
    pub path: String,
    pub query: Option<String>,
    pub version: HttpVersion,
    /// The raw value of the `Host` header.
    pub host: Option<Vec<u8>>,
    /// The raw value of the `User-Agent` header.
    pub user_agent: Option<Vec<u8>>,
    /// The raw value of the `Content-Length` header.
    pub content_length: Option<Vec<u8>>,
}

/// The model of a `RequestMeta`.
pub struct RequestMetaView {
    pub method: Seq<char>,
    pub scheme: Option<Seq<char>>,
    pub path: Seq<char>,
    pub query: Option<Seq<char>>,
    pub version: HttpVersion,
    pub host: Option<Seq<u8>>,
    pub user_agent: Option<Seq<u8>>,
    pub content_length: Option<Seq<u8>>,
}

/// The model of an optional string.
pub open spec fn text_view(text: Option<String>) -> Option<Seq<char>> {
    match text {
        Some(s) => Some(s@),
        None => None,
    }
}

/// The model of an optional header value.
pub open spec fn bytes_view(raw: Option<Vec<u8>>) -> Option<Seq<u8>> {
    match raw {
        Some(b) => Some(b@),
        None => None,
    }
}

impl View for RequestMeta {
    type V = RequestMetaView;

    open spec fn view(&self) -> RequestMetaView {
        RequestMetaView {
            method: self.method@,
            scheme: text_view(self.scheme),
            path: self.path@,
            query: text_view(self.query),
            version: self.version,
            host: bytes_view(self.host),
            user_agent: bytes_view(self.user_agent),
            content_length: bytes_view(self.content_length),
        }
    }
}

/// What the middleware reads of a response.
#[derive(Clone, Debug, PartialEq, Eq)]
pub struct ResponseMeta {
    pub status: u16,
    /// The raw value of the `Content-Length` header.
    pub content_length: Option<Vec<u8>>,
}

/// The model of a `ResponseMeta`.
pub struct ResponseMetaView {
    pub status: u16,
    pub content_length: Option<Seq<u8>>,
}

impl View for ResponseMeta {
    type V = ResponseMetaView;

    open spec fn view(&self) -> ResponseMetaView {
        ResponseMetaView { status: self.status, content_length: bytes_view(self.content_length) }
    }
}

/// The log line that closes a request.
#[derive(Clone, Copy, Debug, PartialEq, Eq, Structural)]
pub struct Completion {
    pub status_code: u16,
    pub latency_ms: u128,
}

/// Whether `b` is a visible ASCII character, a space or a tab.
pub open spec fn is_visible(b: u8) -> bool {
    (32 <= b && b < 127) || b == 9
}

/// The text of a header value: its bytes read as characters, where every byte is
/// visible ASCII, a space or a tab; a value with any other byte has no text.
pub open spec fn header_text(raw: Seq<u8>) -> Option<Seq<char>> {
    if forall|i: int| 0 <= i < raw.len() ==> is_visible(#[trigger] raw[i]) {
        Some(Seq::new(raw.len(), |i: int| raw[i] as char))
    } else {
        None
    }
}

/// The text of a header that may be absent.
pub open spec fn optional_header_text(raw: Option<Seq<u8>>) -> Option<Seq<char>> {
    match raw {
        Some(bytes) => header_text(bytes),
        None => None,
    }
}

/// The scheme that a request is taken to use: its own, or `http` where its
/// target names none.
pub open spec fn scheme_of(scheme: Option<Seq<char>>) -> Seq<char> {
    match scheme {
        Some(s) => s,
        None => "http"@,
    }
}

/// The port that a scheme implies.
pub open spec fn default_port(scheme: Seq<char>) -> Option<u16> {
    if scheme == "https"@ {
        Some(443u16)
    } else if scheme == "http"@ {
        Some(80u16)
    } else {
        None
    }
}

/// The server address in a `Host` text: what stands before its last colon, or
/// the whole text where it has no colon.
pub open spec fn server_address(host: Seq<char>) -> Seq<char> {
    match last_index_of(host, ':') {
        Some(i) => host.take(i),
        None => host,
    }
}

/// The server port for a `Host` text: the number after its last colon where that
/// is a port number, or, where the text has no colon, the port that the scheme
/// implies.
pub open spec fn server_port(host: Seq<char>, scheme: Seq<char>) -> Option<u16> {
    match last_index_of(host, ':') {
        Some(i) => match parse_unsigned(host.skip(i + 1), u16::MAX as nat) {
            Some(port) => Some(port as u16),
            None => None,
        },
        None => default_port(scheme),
    }
}

/// The body size that a `Content-Length` header states.
pub open spec fn content_length(raw: Option<Seq<u8>>) -> Option<u64> {
    match optional_header_text(raw) {
        Some(text) => match parse_unsigned(text, u64::MAX as nat) {
            Some(size) => Some(size as u64),
            None => None,
        },
        None => None,
    }
}

/// The token under which a protocol version is recorded.
pub open spec fn version_token(version: HttpVersion) -> Seq<char> {
    match version {
        HttpVersion::Http09 => "0.9"@,
        HttpVersion::Http10 => "1.0"@,
        HttpVersion::Http11 => "1.1"@,
        HttpVersion::Http2 => "2"@,
        HttpVersion::Http3 => "3"@,
        HttpVersion::Unknown => "unknown"@,
    }
}

/// The name of the operation that a request stands for: its method, a space and
/// its path.
pub open spec fn operation_name(method: Seq<char>, path: Seq<char>) -> Seq<char> {
    method.push(' ') + path
}

/// What is recorded under `key` when `request` arrives; `None` where the key is
/// left unset.
pub open spec fn request_attribute(request: RequestMetaView, key: Key) -> Option<ValueView> {
    let scheme = scheme_of(request.scheme);
    match key {
        Key::HttpRequestMethod => Some(ValueView::Text(request.method)),
        Key::UrlPath => Some(ValueView::Text(request.path)),
        Key::UrlScheme => Some(ValueView::Text(scheme)),
        Key::NetworkProtocolName => Some(ValueView::Text("http"@)),
        Key::NetworkTransport => Some(ValueView::Text("tcp"@)),
        Key::UrlQuery => match request.query {
            Some(query) => Some(ValueView::Text(query)),
            None => None,
        },
        Key::ServerAddress => match optional_header_text(request.host) {
            Some(host) => Some(ValueView::Text(server_address(host))),
            None => None,
        },
        Key::ServerPort => match optional_header_text(request.host) {
            Some(host) => match server_port(host, scheme) {
                Some(port) => Some(ValueView::Number(port as u64)),
                None => None,
            },
            None => None,
        },
        Key::UserAgentOriginal => match optional_header_text(request.user_agent) {
            Some(agent) => Some(ValueView::Text(agent)),
            None => None,
        },
        Key::NetworkProtocolVersion => Some(ValueView::Text(version_token(request.version))),
        Key::HttpRequestBodySize => match content_length(request.content_length) {
            Some(size) => Some(ValueView::Number(size)),
            None => None,
        },
        Key::OtelName => Some(ValueView::Text(operation_name(request.method, request.path))),
        _ => None,
    }
}

/// The attributes of the span of `request` before its response is known.
pub open spec fn request_attributes(request: RequestMetaView) -> Map<Key, ValueView> {
    Map::new(
        |key: Key| request_attribute(request, key) is Some,
        |key: Key| request_attribute(request, key)->0,
    )
}

/// What a response adds to the attributes `before`: its status code, and its
/// body size where the response states one. A key that is already set stays as
/// it is.
pub open spec fn response_attributes(before: Map<Key, ValueView>, response: ResponseMetaView) -> Map<
    Key,
    ValueView,
> {
    let with_status = record_once(
        before,
        Key::HttpResponseStatusCode,
        ValueView::Number(response.status as u64),
    );
    match content_length(response.content_length) {
        Some(size) => record_once(with_status, Key::HttpResponseBodySize, ValueView::Number(size)),
        None => with_status,
    }
}

/// The name of every request span.
pub open spec fn request_span_name() -> Seq<char> {
    "http_request"@
}

/// Reads a header value as text with `http::HeaderValue::from_bytes` and
/// `http::HeaderValue::to_str`.
///
/// Trusted: the first refuses bytes below 32 other than the tab, and 127; the
/// second refuses what is left outside visible ASCII, the space and the tab, and
/// otherwise hands the bytes out as a string unchanged.
#[verifier::external_body]
fn read_header(raw: &[u8]) -> (text: Option<String>)
    ensures
        match header_text(raw@) {
            Some(expected) => text matches Some(s) && s@ == expected,
            None => text is None,
        },
{
    match http::HeaderValue::from_bytes(raw) {
        Ok(value) => match value.to_str() {
            Ok(text) => Some(text.to_string()),
            Err(_) => None,
        },
        Err(_) => None,
    }
}

/// The text of a header that may be absent.
pub fn header_value(raw: &Option<Vec<u8>>) -> (text: Option<String>)
    ensures
        text_view(text) == optional_header_text(bytes_view(*raw)),
{
    match raw {
        Some(bytes) => read_header(bytes.as_slice()),
        None => None,
    }
}

/// The address and the port in a `Host` text.
#[derive(Clone, Debug, PartialEq, Eq)]
pub struct HostParts {
    pub address: String,
    pub port: Option<u16>,
}

/// Splits a `Host` text at its last colon into address and port; without a
/// colon the port is the one that `scheme` implies.
pub fn split_host(host: &str, scheme: &str) -> (parts: HostParts)
    ensures
        parts.address@ == server_address(host@),
        parts.port == server_port(host@, scheme@),
{
    let chars = chars_of(host);
    proof {
        lemma_last_index_of(host@, ':');
    }
    match find_last(&chars, ':') {
        Some(colon) => {
            let address = String::from_str(host.substring_char(0, colon));
            let after = slice_subrange(chars.as_slice(), colon + 1, chars.len());
            assert(after@ =~= host@.skip(colon + 1));
            let port: Option<u16> = match parse_chars(after, 65535) {
                Some(number) => Some(number as u16),
                None => None,
            };
            HostParts { address, port }
        },
        None => {
            let port: Option<u16> = if same_text(scheme, "https") {
                Some(443)
            } else if same_text(scheme, "http") {
                Some(80)
            } else {
                None
            };
            HostParts { address: String::from_str(host), port }
        },
    }
}

/// The token under which `version` is recorded.
pub fn protocol_version(version: HttpVersion) -> (token: &'static str)
    ensures
        token@ == version_token(version),
{
    match version {
        HttpVersion::Http09 => "0.9",
        HttpVersion::Http10 => "1.0",
        HttpVersion::Http11 => "1.1",
        HttpVersion::Http2 => "2",
        HttpVersion::Http3 => "3",
        HttpVersion::Unknown => "unknown",
    }
}

/// The body size that a `Content-Length` header states, if it states one.
pub fn body_size(raw: &Option<Vec<u8>>) -> (size: Option<u64>)
    ensures
        size == content_length(bytes_view(*raw)),
{
    match header_value(raw) {
        Some(text) => parse_u64(text.as_str()),
        None => None,
    }
}

/// Opens the span of a request and records what the request lets derive.
///
/// Method, path and scheme are always set. Without a `Host` header neither
/// server address nor server port is set, and without a query string no query
/// is set. No attribute of the response is set.
pub fn make_span(request: &RequestMeta) -> (span: Span)
    ensures
        span@.name == request_span_name(),
        span@.attributes == request_attributes(request@),
        span@.attributes.contains_key(Key::HttpRequestMethod),
        span@.attributes.contains_key(Key::UrlPath),
        span@.attributes.contains_key(Key::UrlScheme),
        request.host is None ==> !span@.attributes.contains_key(Key::ServerAddress)
            && !span@.attributes.contains_key(Key::ServerPort),
        request.query is None ==> !span@.attributes.contains_key(Key::UrlQuery),
        !span@.attributes.contains_key(Key::HttpResponseStatusCode),
        !span@.attributes.contains_key(Key::HttpResponseBodySize),
{
    let scheme: &str = match &request.scheme {
        Some(s) => s.as_str(),
        None => "http",
    };
    let mut span = Span::new("http_request");
    span.record(Key::HttpRequestMethod, Value::Text(request.method.clone()));
    span.record(Key::UrlPath, Value::Text(request.path.clone()));
    span.record(Key::UrlScheme, Value::Text(String::from_str(scheme)));
    span.record(Key::NetworkProtocolName, Value::Text(String::from_str("http")));
    span.record(Key::NetworkTransport, Value::Text(String::from_str("tcp")));
    match &request.query {
        Some(query) => {
            span.record(Key::UrlQuery, Value::Text(query.clone()));
        },
        None => {},
    }
    match header_value(&request.host) {
        Some(host) => {
            let parts = split_host(host.as_str(), scheme);
            span.record(Key::ServerAddress, Value::Text(parts.address));
            match parts.port {
                Some(port) => {
                    span.record(Key::ServerPort, Value::Number(port as u64));
                },
                None => {},
            }
        },
        None => {},
    }
    match header_value(&request.user_agent) {
        Some(agent) => {
            span.record(Key::UserAgentOriginal, Value::Text(agent));
        },
        None => {},
    }
    span.record(
        Key::NetworkProtocolVersion,
        Value::Text(String::from_str(protocol_version(request.version))),
    );
    match body_size(&request.content_length) {
        Some(size) => {
            span.record(Key::HttpRequestBodySize, Value::Number(size));
        },
        None => {},
    }
    let mut name = request.method.clone();
    proof {
        reveal_strlit(" ");
    }
    name.append(" ");
    name.append(request.path.as_str());
    assert(name@ =~= operation_name(request.method@, request.path@));
    span.record(Key::OtelName, Value::Text(name));
    assert(span@.attributes =~= request_attributes(request@));
    span
}

/// Records what the response lets derive on the span of its request, and hands
/// back the line to log: the status code always, the body size where the
/// response states one.
pub fn on_response(response: &ResponseMeta, latency_ms: u128, span: &mut Span) -> (done: Completion)
    ensures
        final(span)@.name == old(span)@.name,
        final(span)@.attributes == response_attributes(old(span)@.attributes, response@),
        done == (Completion { status_code: response.status, latency_ms }),
{
    span.record(Key::HttpResponseStatusCode, Value::Number(response.status as u64));
    match body_size(&response.content_length) {
        Some(size) => {
            span.record(Key::HttpResponseBodySize, Value::Number(size));
        },
        None => {},
    }
    Completion { status_code: response.status, latency_ms }
}

/// A text made of an address, a colon and the numeral of a port number is split
/// into just these two, whatever the address holds and whatever the scheme is.
pub proof fn lemma_host_with_port(address: Seq<char>, port: u16, scheme: Seq<char>)
    ensures
        server_address(address + seq![':'] + numeral(port as nat)) == address,
        server_port(address + seq![':'] + numeral(port as nat), scheme) == Some(port),
{
    let digits = numeral(port as nat);
    let host = address + seq![':'] + digits;
    let colon = address.len() as int;
    lemma_numeral_value(port as nat);
    lemma_last_index_of(host, ':');
    assert(host[colon] == ':');
    assert forall|j: int| colon < j < host.len() implies host[j] != ':' by {
        assert(host[j] == digits[j - colon - 1]);
        assert(is_digit(digits[j - colon - 1]));
    }
    assert(last_index_of(host, ':') == Some(colon));
    assert(host.take(colon) =~= address);
    assert(host.skip(colon + 1) =~= digits);
    lemma_parse_numeral(port as nat, u16::MAX as nat);
}

/// A text without a colon is the address as a whole, and its port is the one
/// that the scheme implies: 443 for `https`, 80 for `http`.
pub proof fn lemma_host_without_port(host: Seq<char>, scheme: Seq<char>)
    requires
        forall|i: int| 0 <= i < host.len() ==> host[i] != ':',
    ensures
        server_address(host) == host,
        server_port(host, scheme) == default_port(scheme),
        default_port("https"@) == Some(443u16),
        default_port("http"@) == Some(80u16),
{
    lemma_last_index_of(host, ':');
    reveal_strlit("https");
    reveal_strlit("http");
    assert("http"@.len() != "https"@.len());
}

/// A span that was opened for a request and then given its response holds what
/// the request gave it, unchanged, and the status code of the response.
pub proof fn lemma_request_then_response(request: RequestMetaView, response: ResponseMetaView)
    ensures
        ({
            let opened = request_attributes(request);
            let closed = response_attributes(opened, response);
            &&& forall|key: Key| #[trigger] opened.contains_key(key) ==> closed.contains_key(key) && closed[key] == opened[key]
            &&& closed.contains_key(Key::HttpResponseStatusCode)
            &&& closed[Key::HttpResponseStatusCode] == ValueView::Number(response.status as u64)
            &&& closed.contains_key(Key::HttpResponseBodySize) <==> content_length(
                response.content_length,
            ) is Some
        }),
{
}

} // verus!
