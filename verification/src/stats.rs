//! The statistics registry: counters that every connection updates, and the
//! report that is logged from them.

use vstd::prelude::*;
use std::sync::atomic::{AtomicU64, AtomicUsize, Ordering};
use std::time::{Duration, Instant};
use crate::decimal::{decimal, digit_char, format_u64};

verus! {

/// A point in time of the monotonic clock. Nothing of it is read.
#[verifier::external_type_specification]
#[verifier::external_body]
pub struct ExInstant(std::time::Instant);

/// `Instant::now` reads the clock; nothing is claimed of what it returns.
pub assume_specification[ Instant::now ]() -> Instant;

/// `Instant::elapsed` reads the clock; nothing is claimed of what it returns.
pub assume_specification[ Instant::elapsed ](start: &Instant) -> Duration;

/// `Duration::as_secs` gives the whole seconds of a duration, which is opaque
/// here, so nothing is claimed of the number.
pub assume_specification[ Duration::as_secs ](duration: &Duration) -> u64;

/// Counters shared by all connections. Every field is updated atomically and
/// on its own; a reader sees each field as it is at the moment it loads it.
#[derive(Debug)]
pub struct ProxyStats {
    /// Connections accepted since start.
    pub total_connections: AtomicU64,
    /// Connections being handled right now.
    pub active_connections: AtomicUsize,
    /// Bytes forwarded by all tunnels, both directions.
    pub bytes_transferred: AtomicU64,
    /// Requests other than CONNECT.
    pub http_requests: AtomicU64,
    /// CONNECT requests.
    pub https_requests: AtomicU64,
    /// Upstream dials that failed or timed out.
    pub connection_errors: AtomicU64,
    /// When the registry was created.
    pub start_time: Instant,
}

/// What one step of a connection adds to the registry.
#[derive(Clone, Copy, Debug, PartialEq, Eq, Structural)]
pub struct StatsDelta {
    /// A connection was accepted: one more in total, one more active.
    pub accepted: bool,
    /// A connection ended: one fewer active.
    pub closed: bool,
    /// A request other than CONNECT was recognised.
    pub http_request: bool,
    /// A CONNECT request was recognised.
    pub https_request: bool,
    /// An upstream dial failed or timed out.
    pub connection_error: bool,
    /// Bytes forwarded to a peer.
    pub bytes: u64,
}

/// The delta that changes nothing.
pub open spec fn no_change() -> StatsDelta {
    StatsDelta {
        accepted: false,
        closed: false,
        http_request: false,
        https_request: false,
        connection_error: false,
        bytes: 0,
    }
}

impl StatsDelta {
    /// The delta that changes nothing.
    pub fn none() -> (d: StatsDelta)
        ensures
            d == no_change(),
    {
        StatsDelta {
            accepted: false,
            closed: false,
            http_request: false,
            https_request: false,
            connection_error: false,
            bytes: 0,
        }
    }

    /// The delta that only adds forwarded bytes.
    pub fn forwarded(bytes: u64) -> (d: StatsDelta)
        ensures
            d == (StatsDelta { bytes, ..no_change() }),
    {
        StatsDelta {
            accepted: false,
            closed: false,
            http_request: false,
            https_request: false,
            connection_error: false,
            bytes,
        }
    }
}

/// The value of every counter as one reader saw them, one after another.
#[derive(Clone, Copy, Debug, PartialEq, Eq, Structural)]
pub struct StatsSnapshot {
    pub uptime_secs: u64,
    pub total_connections: u64,
    pub active_connections: usize,
    pub bytes_transferred: u64,
    pub http_requests: u64,
    pub https_requests: u64,
    pub connection_errors: u64,
}

/// Hundredths of a mebibyte in `bytes`, rounded to the nearest, a tie to the
/// even one.
pub open spec fn mib_hundredths(bytes: u64) -> nat {
    let scaled = bytes as nat * 100;
    let whole = scaled / 1048576;
    let rest = scaled % 1048576;
    if rest > 524288 || (rest == 524288 && whole % 2 == 1) {
        whole + 1
    } else {
        whole
    }
}

/// `bytes` in mebibytes with two decimals, such as `1.50`.
pub open spec fn mib_text(bytes: u64) -> Seq<char> {
    let h = mib_hundredths(bytes);
    decimal(h / 100) + seq!['.', digit_char(h % 100 / 10), digit_char(h % 10)]
}

/// The lines of the periodic report for `s`.
pub open spec fn report_lines(s: StatsSnapshot) -> Seq<Seq<char>> {
    seq![
        "Proxy Statistics:"@,
        "   Uptime: "@ + decimal(s.uptime_secs as nat) + "s"@,
        "   Total Connections: "@ + decimal(s.total_connections as nat),
        "   Active Connections: "@ + decimal(s.active_connections as nat),
        "   Bytes Transferred: "@ + decimal(s.bytes_transferred as nat) + " ("@ + mib_text(
            s.bytes_transferred,
        ) + " MB)"@,
        "   HTTP Requests: "@ + decimal(s.http_requests as nat),
        "   HTTPS Requests: "@ + decimal(s.https_requests as nat),
        "   Connection Errors: "@ + decimal(s.connection_errors as nat),
    ]
}

/// Writes `bytes` in mebibytes with two decimals.
pub fn format_mib(bytes: u64) -> (s: String)
    ensures
        s@ == mib_text(bytes),
{
    let scaled: u128 = bytes as u128 * 100;
    let whole: u128 = scaled / 1048576;
    let rest: u128 = scaled % 1048576;
    let h: u128 = if rest > 524288 || (rest == 524288 && whole % 2 == 1) {
        whole + 1
    } else {
        whole
    };
    let mut s = format_u64((h / 100) as u64);
    s.push('.');
    s.push((48u8 + (h % 100 / 10) as u8) as char);
    s.push((48u8 + (h % 10) as u8) as char);
    s
}

fn labelled(label: &str, value: u64) -> (s: String)
    ensures
        s@ == label@ + decimal(value as nat),
{
    let mut s = String::from_str(label);
    let digits = format_u64(value);
    s.append(digits.as_str());
    s
}

impl StatsSnapshot {
    /// The lines of the periodic report.
    pub fn report(&self) -> (lines: Vec<String>)
        ensures
            lines.deep_view() == report_lines(*self),
    {
        let mut uptime = labelled("   Uptime: ", self.uptime_secs);
        uptime.append("s");
        let mut bytes = labelled("   Bytes Transferred: ", self.bytes_transferred);
        bytes.append(" (");
        let mib = format_mib(self.bytes_transferred);
        bytes.append(mib.as_str());
        bytes.append(" MB)");
        let mut lines: Vec<String> = Vec::new();
        lines.push(String::from_str("Proxy Statistics:"));
        lines.push(uptime);
        lines.push(labelled("   Total Connections: ", self.total_connections));
        lines.push(labelled("   Active Connections: ", self.active_connections as u64));
        lines.push(bytes);
        lines.push(labelled("   HTTP Requests: ", self.http_requests));
        lines.push(labelled("   HTTPS Requests: ", self.https_requests));
        lines.push(labelled("   Connection Errors: ", self.connection_errors));
        lines
    }
}

impl ProxyStats {
    /// A registry with every counter at 0, started now.
    pub fn new() -> (stats: ProxyStats) {
        ProxyStats {
            total_connections: AtomicU64::new(0),
            active_connections: AtomicUsize::new(0),
            bytes_transferred: AtomicU64::new(0),
            http_requests: AtomicU64::new(0),
            https_requests: AtomicU64::new(0),
            connection_errors: AtomicU64::new(0),
            start_time: Instant::now(),
        }
    }

    /// Adds `delta` to the counters, each with one atomic operation.
    pub fn record(&self, delta: StatsDelta) {
        if delta.accepted {
            self.total_connections.fetch_add(1, Ordering::Relaxed);
            self.active_connections.fetch_add(1, Ordering::Relaxed);
        }
        if delta.http_request {
            self.http_requests.fetch_add(1, Ordering::Relaxed);
        }
        if delta.https_request {
            self.https_requests.fetch_add(1, Ordering::Relaxed);
        }
        if delta.connection_error {
            self.connection_errors.fetch_add(1, Ordering::Relaxed);
        }
        if delta.bytes > 0 {
            self.bytes_transferred.fetch_add(delta.bytes, Ordering::Relaxed);
        }
        if delta.closed {
            self.active_connections.fetch_sub(1, Ordering::Relaxed);
        }
    }

    /// Loads every counter once and reads the clock.
    pub fn snapshot(&self) -> (s: StatsSnapshot) {
        StatsSnapshot {
            uptime_secs: self.start_time.elapsed().as_secs(),
            total_connections: self.total_connections.load(Ordering::Relaxed),
            active_connections: self.active_connections.load(Ordering::Relaxed),
            bytes_transferred: self.bytes_transferred.load(Ordering::Relaxed),
            http_requests: self.http_requests.load(Ordering::Relaxed),
            https_requests: self.https_requests.load(Ordering::Relaxed),
            connection_errors: self.connection_errors.load(Ordering::Relaxed),
        }
    }

    /// The lines of the periodic report, from a snapshot taken now.
    pub fn log_stats(&self) -> (lines: Vec<String>)
        ensures
            exists|s: StatsSnapshot| lines.deep_view() == report_lines(s),
    {
        let s = self.snapshot();
        s.report()
    }
}

} // verus!
