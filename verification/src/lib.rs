//! The decisions of a forward proxy for HTTP and HTTPS (CONNECT).
//!
//! - [`admission`]: the pool of connection permits.
//! - [`head`], [`request`], [`uri`]: from the bytes of a first read to the
//!   endpoint to dial.
//! - [`session`]: one connection, from its first read to its close.
//! - [`relay`], [`tunnel`]: the bounded copy of one direction, and the two
//!   directions of a tunnel.
//! - [`stats`]: the counters and their report.
//! - [`diagnostics`]: error texts that point to a TLS problem.
//! - [`config`], [`platform`]: the command line and what it resolves to; the
//!   host setup run once at startup.
//! - [`text`], [`decimal`]: characters, words and numbers.
//!
//! Sockets, timers and tasks live with the caller. Each step function takes
//! a state and what the caller observed, and returns the next state and what
//! the caller is to do.

use vstd::prelude::*;

pub mod admission;
pub mod config;
pub mod decimal;
pub mod diagnostics;
pub mod head;
pub mod platform;
pub mod relay;
pub mod request;
pub mod session;
pub mod stats;
pub mod text;
pub mod tunnel;
pub mod uri;

pub use admission::{Admission, AdmissionController};
pub use config::{Args, LogLevel};
pub use diagnostics::{analyze_ssl_error, SslCause, SslDiagnosis};
pub use head::find_request_end;
pub use platform::{
    execute_cmd_batch, execute_powershell_script, is_running_as_admin, setup_windows_environment,
};
pub use relay::{
    bounded_copy, bounded_copy_with_ssl_detection, bounded_copy_with_stats, CopyAction, CopyEvent,
    CopyPhase, CopyState, TransferError,
};
pub use request::{parse_host_port, parse_request, ParsedRequest, RequestError};
pub use session::{handle_client, Session, SessionAction, SessionEvent, SessionStep};
pub use stats::{ProxyStats, StatsDelta, StatsSnapshot};
pub use tunnel::{tunnel_fast, Direction, TunnelAction, TunnelFailure, TunnelState};

verus! {

/// Size in bytes of the buffer used for every socket read.
pub const BUFFER_SIZE: usize = 65536;

/// Number of connections that may be handled at the same time.
pub const MAX_CONNECTIONS: usize = 10000;

/// Seconds allowed for the first client read and for dialing upstream.
pub const CONNECT_TIMEOUT_SECS: u64 = 10;

/// Seconds a tunnel direction may wait on a single read or write.
pub const IDLE_TIMEOUT_SECS: u64 = 300;

/// Ceiling on the bytes one tunnel direction may carry (1 GiB).
pub const MAX_DOWNLOAD_SIZE: u64 = 1073741824;

} // verus!
