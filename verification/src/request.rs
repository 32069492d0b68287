//! The request line: method, target, and the endpoint to dial.

use vstd::prelude::*;
use crate::decimal::{parse_u16, parse_u16_spec};
use crate::head::{decode_lossy, find_request_end, head_len, utf8_lossy};
use crate::text::{
    chars_of, eq_ascii_fold, eq_ignore_ascii_case, find_char, find_from, lemma_find_from_at,
    next_word, string_of, words,
};
use crate::uri::{parse_url, url_parse, UrlParts, UrlPartsView};

verus! {

/// Why the first bytes of a connection name no endpoint.
#[derive(Clone, Copy, Debug, PartialEq, Eq, Structural)]
pub enum RequestError {
    /// The first line holds fewer than three words, or nothing was read.
    Malformed,
    /// The target of a request other than CONNECT is no absolute URI.
    InvalidUri,
    /// The target names no host.
    MissingHost,
    /// The target names port 0.
    InvalidPort,
}

/// Mathematical value of a [`ParsedRequest`].
pub struct ParsedRequestView {
    pub method: Seq<char>,
    pub target: Seq<char>,
    pub scheme: Option<Seq<char>>,
    pub host: Seq<char>,
    pub port: u16,
}

/// A request has an endpoint: a host that is not empty and a port above 0.
pub open spec fn has_endpoint(v: ParsedRequestView) -> bool {
    v.host.len() > 0 && v.port >= 1
}

/// Method, target and endpoint of one request, fixed once parsed.
pub struct ParsedRequest {
    method: String,
    target: String,
    scheme: Option<String>,
    host: String,
    port: u16,
}

impl View for ParsedRequest {
    type V = ParsedRequestView;

    closed spec fn view(&self) -> ParsedRequestView {
        ParsedRequestView {
            method: self.method@,
            target: self.target@,
            scheme: match self.scheme {
                Some(s) => Some(s@),
                None => None,
            },
            host: self.host@,
            port: self.port,
        }
    }
}

/// The method is CONNECT, in any mix of upper and lower case.
pub open spec fn is_connect(method: Seq<char>) -> bool {
    eq_ascii_fold(method, "CONNECT"@)
}

/// The text before the first line feed.
pub open spec fn first_line(text: Seq<char>) -> Seq<char> {
    text.take(find_from(text, '\n', 0))
}

/// `target` split at its first colon into host and port. Where there is no
/// colon the whole of it is the host; where what follows the colon is no
/// 16-bit decimal number the port is `default_port`.
pub open spec fn split_host_port(target: Seq<char>, default_port: u16) -> (Seq<char>, u16) {
    let i = find_from(target, ':', 0);
    if i >= target.len() {
        (target, default_port)
    } else {
        (
            target.take(i),
            match parse_u16_spec(target.skip(i + 1)) {
                Some(p) => p,
                None => default_port,
            },
        )
    }
}

/// The request with the given parts, where the parts name an endpoint.
pub open spec fn with_endpoint(
    method: Seq<char>,
    target: Seq<char>,
    scheme: Option<Seq<char>>,
    host: Seq<char>,
    port: u16,
) -> Result<ParsedRequestView, RequestError> {
    if host.len() == 0 {
        Err(RequestError::MissingHost)
    } else if port == 0 {
        Err(RequestError::InvalidPort)
    } else {
        Ok(ParsedRequestView { method, target, scheme, host, port })
    }
}

/// A CONNECT request: the target is `host:port`, the port 443 by default.
pub open spec fn connect_request(method: Seq<char>, target: Seq<char>) -> Result<
    ParsedRequestView,
    RequestError,
> {
    let (host, port) = split_host_port(target, 443);
    with_endpoint(method, target, None, host, port)
}

/// The port a scheme implies: 443 for `https`, 80 for every other.
pub open spec fn scheme_port(scheme: Seq<char>) -> u16 {
    if scheme == "https"@ {
        443
    } else {
        80
    }
}

/// A request other than CONNECT, given what URI parsing made of its target.
pub open spec fn forward_request(
    method: Seq<char>,
    target: Seq<char>,
    uri: Option<UrlPartsView>,
) -> Result<ParsedRequestView, RequestError> {
    match uri {
        None => Err(RequestError::InvalidUri),
        Some(parts) => match parts.host {
            None => Err(RequestError::MissingHost),
            Some(host) => with_endpoint(
                method,
                target,
                Some(parts.scheme),
                host,
                match parts.port {
                    Some(p) => p,
                    None => scheme_port(parts.scheme),
                },
            ),
        },
    }
}

/// The request that the first line of `text` makes.
pub open spec fn parse_text_spec(text: Seq<char>) -> Result<ParsedRequestView, RequestError> {
    let w = words(first_line(text));
    if w.len() < 3 {
        Err(RequestError::Malformed)
    } else if is_connect(w[0]) {
        connect_request(w[0], w[1])
    } else {
        forward_request(w[0], w[1], url_parse(w[1]))
    }
}

/// The request that the bytes of a first read make: the head is decoded as
/// text, invalid UTF-8 replaced, and its first line is parsed.
pub open spec fn parse_spec(buffer: Seq<u8>) -> Result<ParsedRequestView, RequestError> {
    if buffer.len() == 0 {
        Err(RequestError::Malformed)
    } else {
        parse_text_spec(utf8_lossy(buffer.take(head_len(buffer))))
    }
}

/// An exec result agrees with a spec result.
pub open spec fn agrees(
    r: Result<ParsedRequest, RequestError>,
    expected: Result<ParsedRequestView, RequestError>,
) -> bool {
    match r {
        Ok(request) => expected == Ok::<ParsedRequestView, RequestError>(request@),
        Err(e) => expected == Err::<ParsedRequestView, RequestError>(e),
    }
}

/// Splits `url` at its first colon into a host and a port.
pub fn parse_host_port<'a>(url: &'a str, default_port: u16) -> (r: (&'a str, u16))
    ensures
        (r.0@, r.1) == split_host_port(url@, default_port),
{
    let chars = chars_of(url);
    let i = find_char(&chars, ':');
    if i >= chars.len() {
        (url, default_port)
    } else {
        let host = url.substring_char(0, i);
        let port = match parse_u16(&chars, i + 1) {
            Some(p) => p,
            None => default_port,
        };
        (host, port)
    }
}

impl ParsedRequest {
    #[verifier::type_invariant]
    spec fn inv(self) -> bool {
        self.host@.len() > 0 && self.port >= 1
    }

    fn new(method: String, target: String, scheme: Option<String>, host: String, port: u16) -> (r:
        Result<ParsedRequest, RequestError>)
        ensures
            agrees(
                r,
                with_endpoint(
                    method@,
                    target@,
                    match scheme {
                        Some(s) => Some(s@),
                        None => None,
                    },
                    host@,
                    port,
                ),
            ),
    {
        if host.as_str().unicode_len() == 0 {
            Err(RequestError::MissingHost)
        } else if port == 0 {
            Err(RequestError::InvalidPort)
        } else {
            Ok(ParsedRequest { method, target, scheme, host, port })
        }
    }

    /// The request a CONNECT line makes of its target.
    pub fn connect(method: String, target: String) -> (r: Result<ParsedRequest, RequestError>)
        ensures
            agrees(r, connect_request(method@, target@)),
    {
        let (host, port) = parse_host_port(target.as_str(), 443);
        let host = host.to_owned();
        ParsedRequest::new(method, target, None, host, port)
    }

    /// The request a line other than CONNECT makes, given the parts of its
    /// target as a URI, or `None` where the target is no absolute URI.
    pub fn forward(method: String, target: String, uri: Option<UrlParts>) -> (r: Result<
        ParsedRequest,
        RequestError,
    >)
        ensures
            agrees(
                r,
                forward_request(
                    method@,
                    target@,
                    match uri {
                        Some(parts) => Some(parts@),
                        None => None,
                    },
                ),
            ),
    {
        match uri {
            None => Err(RequestError::InvalidUri),
            Some(parts) => {
                let UrlParts { scheme, host, port } = parts;
                match host {
                    None => Err(RequestError::MissingHost),
                    Some(host) => {
                        let port = match port {
                            Some(p) => p,
                            None => if scheme == "https".to_owned() {
                                443
                            } else {
                                80
                            },
                        };
                        ParsedRequest::new(method, target, Some(scheme), host, port)
                    },
                }
            },
        }
    }

    /// The method, as the client wrote it.
    pub fn method(&self) -> (r: &String)
        ensures
            r@ == self@.method,
    {
        &self.method
    }

    /// The target, as the client wrote it.
    pub fn target(&self) -> (r: &String)
        ensures
            r@ == self@.target,
    {
        &self.target
    }

    /// The scheme of the target; `None` for CONNECT.
    pub fn scheme(&self) -> (r: &Option<String>)
        ensures
            r is Some == self@.scheme is Some,
            r matches Some(s) ==> self@.scheme == Some(s@),
    {
        &self.scheme
    }

    /// The host to dial. It is never empty.
    pub fn host(&self) -> (r: &String)
        ensures
            r@ == self@.host,
            r@.len() > 0,
    {
        proof {
            use_type_invariant(self);
        }
        &self.host
    }

    /// The port to dial. It is never 0.
    pub fn port(&self) -> (r: u16)
        ensures
            r == self@.port,
            r >= 1,
    {
        proof {
            use_type_invariant(self);
        }
        self.port
    }

    /// Whether the client asked for a tunnel with CONNECT.
    pub fn is_connect(&self) -> (r: bool)
        ensures
            r == is_connect(self@.method),
    {
        let method = chars_of(self.method.as_str());
        let connect = chars_of("CONNECT");
        eq_ignore_ascii_case(&method, &connect)
    }
}

/// Parses the first line of a request head that is already text.
pub fn parse_request_text(text: &str) -> (r: Result<ParsedRequest, RequestError>)
    ensures
        agrees(r, parse_text_spec(text@)),
{
    let mut line = chars_of(text);
    let end = find_char(&line, '\n');
    line.truncate(end);
    let (a0, b0) = match next_word(&line, 0) {
        Some(w) => w,
        None => {
            return Err(RequestError::Malformed);
        },
    };
    let (a1, b1) = match next_word(&line, b0) {
        Some(w) => w,
        None => {
            return Err(RequestError::Malformed);
        },
    };
    if next_word(&line, b1).is_none() {
        return Err(RequestError::Malformed);
    }
    let method = string_of(&line, a0, b0);
    let target = string_of(&line, a1, b1);
    let method_chars = chars_of(method.as_str());
    let connect = chars_of("CONNECT");
    if eq_ignore_ascii_case(&method_chars, &connect) {
        ParsedRequest::connect(method, target)
    } else {
        let uri = match parse_url(target.as_str()) {
            Ok(parts) => Some(parts),
            Err(_) => None,
        };
        ParsedRequest::forward(method, target, uri)
    }
}

/// Parses the bytes of a connection's first read into the request they make.
pub fn parse_request(buffer: &[u8]) -> (r: Result<ParsedRequest, RequestError>)
    ensures
        agrees(r, parse_spec(buffer@)),
{
    if buffer.len() == 0 {
        return Err(RequestError::Malformed);
    }
    let end = find_request_end(buffer);
    let head = vstd::slice::slice_subrange(buffer, 0, end);
    let text = decode_lossy(head);
    parse_request_text(text.as_str())
}

/// A target without a colon is all host, with the default port. A host
/// without a colon, followed by a colon and a tail, is split into that host
/// and the number the tail writes; the default port takes the place of a
/// tail that writes no 16-bit number, be it empty, too large or no number.
pub proof fn lemma_split_host_port(host: Seq<char>, tail: Seq<char>, default_port: u16)
    requires
        forall|i: int| 0 <= i < host.len() ==> host[i] != ':',
    ensures
        split_host_port(host, default_port) == (host, default_port),
        split_host_port(host + seq![':'] + tail, default_port) == (
            host,
            match parse_u16_spec(tail) {
                Some(port) => port,
                None => default_port,
            },
        ),
{
    let target = host + seq![':'] + tail;
    lemma_find_from_at(host, ':', 0, host.len() as int);
    lemma_find_from_at(target, ':', 0, host.len() as int);
    assert(target.take(host.len() as int) =~= host);
    assert(target.skip(host.len() as int + 1) =~= tail);
}

/// Every request that parsing yields names an endpoint.
pub proof fn lemma_parsed_has_endpoint(buffer: Seq<u8>)
    ensures
        parse_spec(buffer) matches Ok(request) ==> has_endpoint(request),
{
}

} // verus!
