//! One client connection, from its first read to its close.
//!
//! The caller owns the sockets. It reads the first chunk, dials, writes and
//! runs the tunnel as it is told, and reports each outcome as an event.

use vstd::prelude::*;
use vstd::string::StringSliceAdditionalSpecFns;
use crate::diagnostics::{analyze_ssl_error, diagnosis, lowercase, SslCause, SslDiagnosis};
use crate::request::{is_connect, parse_request, parse_spec, ParsedRequest, ParsedRequestView};
use crate::stats::{no_change, StatsDelta};

verus! {

/// The bytes sent to the client once the upstream of a CONNECT is reached.
pub open spec fn established_reply() -> Seq<u8> {
    "HTTP/1.1 200 Connection Established\r\n\r\n".spec_bytes()
}

/// The bytes sent to the client when the upstream cannot be reached.
pub open spec fn bad_gateway_reply() -> Seq<u8> {
    "HTTP/1.1 502 Bad Gateway\r\n\r\n".spec_bytes()
}

/// Where a connection stands.
pub enum Session {
    /// The first read is pending.
    AwaitingRequest,
    /// The dial of the request's endpoint is pending. `initial` holds the
    /// bytes of the first read.
    Dialing { request: ParsedRequest, initial: Vec<u8> },
    /// The tunnel is running.
    Tunneling,
    /// The connection is over.
    Closed,
}

/// Mathematical value of a [`Session`].
pub enum SessionView {
    AwaitingRequest,
    Dialing { request: ParsedRequestView, initial: Seq<u8> },
    Tunneling,
    Closed,
}

impl View for Session {
    type V = SessionView;

    open spec fn view(&self) -> SessionView {
        match self {
            Session::AwaitingRequest => SessionView::AwaitingRequest,
            Session::Dialing { request, initial } => SessionView::Dialing {
                request: request@,
                initial: initial@,
            },
            Session::Tunneling => SessionView::Tunneling,
            Session::Closed => SessionView::Closed,
        }
    }
}

/// What the caller observed.
pub enum SessionEvent {
    /// The first read returned `bytes`; none where the client closed.
    RequestRead { bytes: Vec<u8> },
    /// The first read failed or did not complete in time.
    RequestFailed,
    /// The endpoint was reached.
    Connected,
    /// The dial failed; `reason` is the text of its error.
    ConnectFailed { reason: String },
    /// The dial did not complete in time.
    ConnectTimedOut,
    /// A write asked for together with the tunnel failed before it ran.
    WriteFailed,
    /// The tunnel ended, cleanly or not.
    TunnelEnded,
}

/// Mathematical value of a [`SessionEvent`].
pub enum SessionEventView {
    RequestRead { bytes: Seq<u8> },
    RequestFailed,
    Connected,
    ConnectFailed { reason: Seq<char> },
    ConnectTimedOut,
    WriteFailed,
    TunnelEnded,
}

impl View for SessionEvent {
    type V = SessionEventView;

    open spec fn view(&self) -> SessionEventView {
        match self {
            SessionEvent::RequestRead { bytes } => SessionEventView::RequestRead { bytes: bytes@ },
            SessionEvent::RequestFailed => SessionEventView::RequestFailed,
            SessionEvent::Connected => SessionEventView::Connected,
            SessionEvent::ConnectFailed { reason } => SessionEventView::ConnectFailed {
                reason: reason@,
            },
            SessionEvent::ConnectTimedOut => SessionEventView::ConnectTimedOut,
            SessionEvent::WriteFailed => SessionEventView::WriteFailed,
            SessionEvent::TunnelEnded => SessionEventView::TunnelEnded,
        }
    }
}

/// What the caller is to do next.
#[derive(Debug, PartialEq, Eq)]
pub enum SessionAction {
    /// Dial `host:port` within the connect timeout.
    Dial { host: String, port: u16 },
    /// Write `to_client` to the client and `to_upstream` to the upstream,
    /// then run the tunnel.
    Tunnel { to_client: Vec<u8>, to_upstream: Vec<u8> },
    /// Write `to_client` to the client, then close the connection.
    Close { to_client: Vec<u8> },
}

/// Mathematical value of a [`SessionAction`].
pub enum SessionActionView {
    Dial { host: Seq<char>, port: u16 },
    Tunnel { to_client: Seq<u8>, to_upstream: Seq<u8> },
    Close { to_client: Seq<u8> },
}

impl View for SessionAction {
    type V = SessionActionView;

    open spec fn view(&self) -> SessionActionView {
        match self {
            SessionAction::Dial { host, port } => SessionActionView::Dial {
                host: host@,
                port: *port,
            },
            SessionAction::Tunnel { to_client, to_upstream } => SessionActionView::Tunnel {
                to_client: to_client@,
                to_upstream: to_upstream@,
            },
            SessionAction::Close { to_client } => SessionActionView::Close {
                to_client: to_client@,
            },
        }
    }
}

/// The connection ends without a word to the client.
pub open spec fn silent_close() -> (SessionView, SessionActionView, StatsDelta) {
    (
        SessionView::Closed,
        SessionActionView::Close { to_client: Seq::empty() },
        StatsDelta { closed: true, ..no_change() },
    )
}

/// The step that follows the first read.
pub open spec fn after_request(bytes: Seq<u8>) -> (SessionView, SessionActionView, StatsDelta) {
    match parse_spec(bytes) {
        Ok(request) => (
            SessionView::Dialing { request, initial: bytes },
            SessionActionView::Dial { host: request.host, port: request.port },
            StatsDelta {
                http_request: !is_connect(request.method),
                https_request: is_connect(request.method),
                ..no_change()
            },
        ),
        Err(_) => silent_close(),
    }
}

/// The step that follows a dial that reached the endpoint: for CONNECT the
/// client is told so and nothing goes upstream; for every other method the
/// bytes of the first read go upstream and nothing is said to the client.
pub open spec fn after_connected(request: ParsedRequestView, initial: Seq<u8>) -> (
    SessionView,
    SessionActionView,
    StatsDelta,
) {
    (
        SessionView::Tunneling,
        if is_connect(request.method) {
            SessionActionView::Tunnel {
                to_client: established_reply(),
                to_upstream: Seq::empty(),
            }
        } else {
            SessionActionView::Tunnel { to_client: Seq::empty(), to_upstream: initial }
        },
        no_change(),
    )
}

/// The step that follows a dial that failed or timed out.
pub open spec fn after_dial_failure() -> (SessionView, SessionActionView, StatsDelta) {
    (
        SessionView::Closed,
        SessionActionView::Close { to_client: bad_gateway_reply() },
        StatsDelta { connection_error: true, closed: true, ..no_change() },
    )
}

/// One step of a connection: the state after `event`, the next action, and
/// what the step adds to the statistics.
///
/// A closed connection stays closed. An event that answers nothing pending
/// closes the connection without a word.
pub open spec fn session_step(v: SessionView, event: SessionEventView) -> (
    SessionView,
    SessionActionView,
    StatsDelta,
) {
    match (v, event) {
        (SessionView::Closed, _) => (
            SessionView::Closed,
            SessionActionView::Close { to_client: Seq::empty() },
            no_change(),
        ),
        (SessionView::AwaitingRequest, SessionEventView::RequestRead { bytes }) => after_request(
            bytes,
        ),
        (SessionView::Dialing { request, initial }, SessionEventView::Connected) => after_connected(
            request,
            initial,
        ),
        (
            SessionView::Dialing { request, initial },
            SessionEventView::ConnectFailed { reason },
        ) => after_dial_failure(),
        (SessionView::Dialing { request, initial }, SessionEventView::ConnectTimedOut) =>
            after_dial_failure(),
        _ => silent_close(),
    }
}

/// A failed dial is examined for a certificate problem where the client
/// asked for a tunnel or for an `https` target.
pub open spec fn examines_dial_error(request: ParsedRequestView) -> bool {
    is_connect(request.method) || request.scheme == Some("https"@)
}

/// The diagnosis that goes with a step, given the text of a dial error in
/// lower case.
pub open spec fn step_diagnosis(v: SessionView, event: SessionEventView, lowered: Seq<char>)
    -> Option<(SslCause, Seq<Seq<char>>)> {
    match (v, event) {
        (
            SessionView::Dialing { request, initial },
            SessionEventView::ConnectFailed { reason },
        ) => if examines_dial_error(request) {
            diagnosis(request.host, request.port, reason, lowered)
        } else {
            None
        },
        _ => None,
    }
}

/// The text of the dial error that an event carries.
pub open spec fn dial_error_text(event: SessionEventView) -> Seq<char> {
    match event {
        SessionEventView::ConnectFailed { reason } => reason,
        _ => Seq::empty(),
    }
}

/// The outcome of one step of a connection.
pub struct SessionStep {
    /// The state after the step.
    pub next: Session,
    /// What the caller is to do next.
    pub action: SessionAction,
    /// What the step adds to the statistics.
    pub stats: StatsDelta,
    /// A warning to log about the dial error, if it looks TLS related.
    pub diagnosis: Option<SslDiagnosis>,
}

impl Session {
    /// A connection that was just accepted: its first read is pending, and
    /// the statistics count one more connection, total and active.
    pub fn accept() -> (r: (Session, StatsDelta))
        ensures
            r.0@ == SessionView::AwaitingRequest,
            r.1 == (StatsDelta { accepted: true, ..no_change() }),
    {
        let mut delta = StatsDelta::none();
        delta.accepted = true;
        (Session::AwaitingRequest, delta)
    }

    /// Whether the connection is over.
    pub fn is_closed(&self) -> (r: bool)
        ensures
            r == (self@ is Closed),
    {
        match self {
            Session::Closed => true,
            _ => false,
        }
    }
}

fn close_silently() -> (r: SessionStep)
    ensures
        (r.next@, r.action@, r.stats) == silent_close(),
        r.diagnosis is None,
{
    let mut stats = StatsDelta::none();
    stats.closed = true;
    SessionStep {
        next: Session::Closed,
        action: SessionAction::Close { to_client: Vec::new() },
        stats,
        diagnosis: None,
    }
}

fn refuse(diagnosis: Option<SslDiagnosis>) -> (r: SessionStep)
    ensures
        (r.next@, r.action@, r.stats) == after_dial_failure(),
        r.diagnosis == diagnosis,
{
    let mut stats = StatsDelta::none();
    stats.connection_error = true;
    stats.closed = true;
    SessionStep {
        next: Session::Closed,
        action: SessionAction::Close { to_client: "HTTP/1.1 502 Bad Gateway\r\n\r\n".as_bytes_vec() },
        stats,
        diagnosis,
    }
}

/// Tells whether the scheme of a request is `https`.
fn is_https(request: &ParsedRequest) -> (r: bool)
    ensures
        r == (request@.scheme == Some("https"@)),
{
    match request.scheme() {
        Some(s) => *s == "https".to_owned(),
        None => false,
    }
}

/// Advances a connection by what the caller observed and tells it what to do
/// next.
pub fn handle_client(state: Session, event: SessionEvent) -> (r: SessionStep)
    ensures
        (r.next@, r.action@, r.stats) == session_step(state@, event@),
        match r.diagnosis {
            Some(d) => Some(d@) == step_diagnosis(
                state@,
                event@,
                lowercase(dial_error_text(event@)),
            ),
            None => step_diagnosis(state@, event@, lowercase(dial_error_text(event@))) is None,
        },
{
    match (state, event) {
        (Session::Closed, _) => SessionStep {
            next: Session::Closed,
            action: SessionAction::Close { to_client: Vec::new() },
            stats: StatsDelta::none(),
            diagnosis: None,
        },
        (Session::AwaitingRequest, SessionEvent::RequestRead { bytes }) => {
            match parse_request(bytes.as_slice()) {
                Ok(request) => {
                    let connect = request.is_connect();
                    let mut stats = StatsDelta::none();
                    stats.http_request = !connect;
                    stats.https_request = connect;
                    let host = request.host().clone();
                    let port = request.port();
                    SessionStep {
                        next: Session::Dialing { request, initial: bytes },
                        action: SessionAction::Dial { host, port },
                        stats,
                        diagnosis: None,
                    }
                },
                Err(_) => close_silently(),
            }
        },
        (Session::Dialing { request, initial }, SessionEvent::Connected) => {
            let action = if request.is_connect() {
                SessionAction::Tunnel {
                    to_client: "HTTP/1.1 200 Connection Established\r\n\r\n".as_bytes_vec(),
                    to_upstream: Vec::new(),
                }
            } else {
                SessionAction::Tunnel { to_client: Vec::new(), to_upstream: initial }
            };
            SessionStep {
                next: Session::Tunneling,
                action,
                stats: StatsDelta::none(),
                diagnosis: None,
            }
        },
        (Session::Dialing { request, .. }, SessionEvent::ConnectFailed { reason }) => {
            let diagnosis = if request.is_connect() || is_https(&request) {
                analyze_ssl_error(request.host().as_str(), request.port(), reason.as_str())
            } else {
                None
            };
            refuse(diagnosis)
        },
        (Session::Dialing { .. }, SessionEvent::ConnectTimedOut) => refuse(None),
        _ => close_silently(),
    }
}

/// Once the upstream of a CONNECT request is reached, the client is sent
/// exactly the line that says so, nothing goes upstream, and the tunnel runs.
pub proof fn lemma_connect_is_established(request: ParsedRequestView, initial: Seq<u8>)
    requires
        is_connect(request.method),
    ensures
        session_step(SessionView::Dialing { request, initial }, SessionEventView::Connected) == (
            SessionView::Tunneling,
            SessionActionView::Tunnel { to_client: established_reply(), to_upstream: Seq::empty() },
            no_change(),
        ),
{
}

/// Once the upstream of a request other than CONNECT is reached, the bytes
/// of the first read go upstream unchanged and the client is sent nothing.
pub proof fn lemma_request_is_forwarded(request: ParsedRequestView, initial: Seq<u8>)
    requires
        !is_connect(request.method),
    ensures
        session_step(SessionView::Dialing { request, initial }, SessionEventView::Connected) == (
            SessionView::Tunneling,
            SessionActionView::Tunnel { to_client: Seq::empty(), to_upstream: initial },
            no_change(),
        ),
{
}

/// Whatever the request, a dial that fails or times out sends the client
/// exactly the bad-gateway line, closes the connection and counts one error.
pub proof fn lemma_dial_failure_is_bad_gateway(
    request: ParsedRequestView,
    initial: Seq<u8>,
    reason: Seq<char>,
)
    ensures
        session_step(
            SessionView::Dialing { request, initial },
            SessionEventView::ConnectFailed { reason },
        ) == after_dial_failure(),
        session_step(SessionView::Dialing { request, initial }, SessionEventView::ConnectTimedOut)
            == after_dial_failure(),
        after_dial_failure().0 is Closed,
        after_dial_failure().1 == (SessionActionView::Close { to_client: bad_gateway_reply() }),
        after_dial_failure().2.connection_error,
{
}

/// A request that cannot be parsed closes the connection with no byte
/// written to the client.
pub proof fn lemma_malformed_is_silent(bytes: Seq<u8>)
    requires
        parse_spec(bytes) is Err,
    ensures
        session_step(SessionView::AwaitingRequest, SessionEventView::RequestRead { bytes })
            == silent_close(),
        silent_close().1 == (SessionActionView::Close { to_client: Seq::empty() }),
{
}

/// A request is counted once, as a tunnel request when its method is
/// CONNECT and as a plain one otherwise.
pub proof fn lemma_request_is_counted_once(bytes: Seq<u8>)
    requires
        parse_spec(bytes) is Ok,
    ensures
        ({
            let stats = session_step(
                SessionView::AwaitingRequest,
                SessionEventView::RequestRead { bytes },
            ).2;
            let method = parse_spec(bytes)->Ok_0.method;
            &&& stats.https_request == is_connect(method)
            &&& stats.http_request == !is_connect(method)
            &&& !stats.closed && !stats.accepted && !stats.connection_error && stats.bytes == 0
        }),
{
}

/// A connection leaves the active count exactly when it closes: the step
/// that closes it says so, and no step after that does.
pub proof fn lemma_closed_once(v: SessionView, event: SessionEventView)
    ensures
        ({
            let (next, action, stats) = session_step(v, event);
            &&& stats.closed == (!(v is Closed) && next is Closed)
            &&& v is Closed ==> next is Closed && stats == no_change()
            &&& !stats.accepted
        }),
{
}

/// How often a run of steps counted each thing.
pub struct SessionTotals {
    pub requests: nat,
    pub closes: nat,
    pub errors: nat,
}

/// 1 where `flag` holds, else 0.
pub open spec fn count(flag: bool) -> nat {
    if flag {
        1
    } else {
        0
    }
}

/// The connection after a run of events.
pub open spec fn session_run(v: SessionView, events: Seq<SessionEventView>) -> SessionView
    decreases events.len(),
{
    if events.len() == 0 {
        v
    } else {
        session_run(session_step(v, events[0]).0, events.drop_first())
    }
}

/// What the steps of a run add to the statistics, all together.
pub open spec fn session_totals(v: SessionView, events: Seq<SessionEventView>) -> SessionTotals
    decreases events.len(),
{
    if events.len() == 0 {
        SessionTotals { requests: 0, closes: 0, errors: 0 }
    } else {
        let (next, action, stats) = session_step(v, events[0]);
        let rest = session_totals(next, events.drop_first());
        SessionTotals {
            requests: count(stats.http_request) + count(stats.https_request) + rest.requests,
            closes: count(stats.closed) + rest.closes,
            errors: count(stats.connection_error) + rest.errors,
        }
    }
}

/// The requests that an open connection has counted by the time it stands
/// in `v`: one once it dials or tunnels.
pub open spec fn requests_so_far(v: SessionView) -> nat {
    count(v is Dialing || v is Tunneling)
}

/// Whatever is reported to a connection, in whatever order: it counts at
/// most one request and at most one dial error, it counts exactly one
/// request by the time it dials or tunnels, and it leaves the active count
/// once if it has closed and not at all if it has not.
pub proof fn lemma_connection_is_counted_once(v: SessionView, events: Seq<SessionEventView>)
    requires
        !(v is Closed),
    ensures
        ({
            let end = session_run(v, events);
            let totals = session_totals(v, events);
            &&& totals.closes == count(end is Closed)
            &&& requests_so_far(v) + totals.requests <= 1
            &&& end is Dialing || end is Tunneling ==> requests_so_far(v) + totals.requests == 1
            &&& totals.errors <= 1
            &&& totals.errors == 1 ==> end is Closed
        }),
    decreases events.len(),
{
    if events.len() > 0 {
        let (next, action, stats) = session_step(v, events[0]);
        if next is Closed {
            lemma_closed_is_silent(events.drop_first());
        } else {
            lemma_connection_is_counted_once(next, events.drop_first());
        }
    }
}

/// A closed connection adds nothing to the statistics, whatever follows.
pub proof fn lemma_closed_is_silent(events: Seq<SessionEventView>)
    ensures
        session_run(SessionView::Closed, events) is Closed,
        session_totals(SessionView::Closed, events) == (SessionTotals {
            requests: 0,
            closes: 0,
            errors: 0,
        }),
    decreases events.len(),
{
    if events.len() > 0 {
        lemma_closed_is_silent(events.drop_first());
    }
}

} // verus!
