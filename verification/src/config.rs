//! What the command line resolves to: where to listen and how much to log.

use vstd::prelude::*;
use crate::decimal::{decimal, digits_value, format_u64, parse_u16_spec};

verus! {

/// The port to listen on when none is given.
pub const DEFAULT_PORT: u16 = 3129;

/// How much is logged.
#[derive(Clone, Copy, Debug, PartialEq, Eq, Structural)]
pub enum LogLevel {
    Debug,
    Info,
    Warn,
    Error,
}

/// The level that `name` names: one of `debug`, `info`, `warn`, `error`,
/// written exactly so.
pub open spec fn named_level(name: Seq<char>) -> Option<LogLevel> {
    if name == "debug"@ {
        Some(LogLevel::Debug)
    } else if name == "info"@ {
        Some(LogLevel::Info)
    } else if name == "warn"@ {
        Some(LogLevel::Warn)
    } else if name == "error"@ {
        Some(LogLevel::Error)
    } else {
        None
    }
}

/// Tells whether two texts are the same.
fn same(a: &str, b: &str) -> (r: bool)
    ensures
        r == (a@ == b@),
{
    String::from_str(a) == String::from_str(b)
}

/// The level that `name` names, if it names one.
pub fn parse_log_level(name: &str) -> (r: Option<LogLevel>)
    ensures
        r == named_level(name@),
{
    if same(name, "debug") {
        Some(LogLevel::Debug)
    } else if same(name, "info") {
        Some(LogLevel::Info)
    } else if same(name, "warn") {
        Some(LogLevel::Warn)
    } else if same(name, "error") {
        Some(LogLevel::Error)
    } else {
        None
    }
}

/// The level to log at for `name`, and whether `name` was recognised. A name
/// that is not recognised falls back to `Info`; the caller warns about it.
pub fn resolve_log_level(name: &str) -> (r: (LogLevel, bool))
    ensures
        r.1 == named_level(name@) is Some,
        r.0 == match named_level(name@) {
            Some(level) => level,
            None => LogLevel::Info,
        },
{
    match parse_log_level(name) {
        Some(level) => (level, true),
        None => (LogLevel::Info, false),
    }
}

/// The address to bind: `host`, a colon, and `port` in decimal.
pub fn listen_address(host: &str, port: u16) -> (addr: String)
    ensures
        addr@ == host@ + ":"@ + decimal(port as nat),
{
    let mut addr = String::from_str(host);
    addr.append(":");
    let digits = format_u64(port as u64);
    addr.append(digits.as_str());
    addr
}

/// What the command line resolves to.
pub struct Args {
    /// Host to listen on.
    pub host: String,
    /// Port to listen on.
    pub port: u16,
    /// Name of the log level.
    pub log_level: String,
}

impl Default for Args {
    /// The arguments of a command line that names nothing: all interfaces,
    /// the default port, and the `info` level.
    fn default() -> (args: Args)
        ensures
            args.host@ == "0.0.0.0"@,
            args.port == DEFAULT_PORT,
            args.log_level@ == "info"@,
    {
        Args {
            host: String::from_str("0.0.0.0"),
            port: DEFAULT_PORT,
            log_level: String::from_str("info"),
        }
    }
}

impl Args {
    /// The address to bind.
    pub fn listen_address(&self) -> (addr: String)
        ensures
            addr@ == self.host@ + ":"@ + decimal(self.port as nat),
    {
        listen_address(self.host.as_str(), self.port)
    }

    /// The level to log at, and whether the name given was recognised.
    pub fn log_level(&self) -> (r: (LogLevel, bool))
        ensures
            r.1 == named_level(self.log_level@) is Some,
            r.0 == match named_level(self.log_level@) {
                Some(level) => level,
                None => LogLevel::Info,
            },
    {
        resolve_log_level(self.log_level.as_str())
    }
}

/// What an option of the command line takes as its value.
#[derive(Clone, Copy, Debug, PartialEq, Eq, Structural)]
pub enum CliValue {
    /// Any text.
    Text,
    /// A port: a number from 0 to 65535.
    Port,
}

/// One option of the command line.
#[derive(Clone, Copy, Debug, PartialEq, Eq)]
pub struct CliOption {
    /// The field of [`Args`] that the option fills.
    pub id: &'static str,
    /// The name after `--`.
    pub long: &'static str,
    /// The letter after `-`, if the option has one.
    pub short: Option<char>,
    /// The value of the option where the command line does not name it.
    pub default_value: &'static str,
    /// What the value has to be.
    pub value: CliValue,
    /// What the option is for.
    pub help: &'static str,
}

/// Mathematical value of a [`CliOption`].
pub struct CliOptionView {
    pub id: Seq<char>,
    pub long: Seq<char>,
    pub short: Option<char>,
    pub default_value: Seq<char>,
    pub value: CliValue,
    pub help: Seq<char>,
}

impl DeepView for CliOption {
    type V = CliOptionView;

    open spec fn deep_view(&self) -> CliOptionView {
        CliOptionView {
            id: self.id@,
            long: self.long@,
            short: self.short,
            default_value: self.default_value@,
            value: self.value,
            help: self.help@,
        }
    }
}

/// The command line: `--host`, `--port` or `-p`, and `--log-level` or `-l`,
/// each with a default.
pub open spec fn cli_surface() -> Seq<CliOptionView> {
    seq![
        CliOptionView {
            id: "host"@,
            long: "host"@,
            short: None,
            default_value: "0.0.0.0"@,
            value: CliValue::Text,
            help: "Host to listen on (default: 0.0.0.0)"@,
        },
        CliOptionView {
            id: "port"@,
            long: "port"@,
            short: Some('p'),
            default_value: "3129"@,
            value: CliValue::Port,
            help: "Port to listen on (default: 3129)"@,
        },
        CliOptionView {
            id: "log_level"@,
            long: "log-level"@,
            short: Some('l'),
            default_value: "info"@,
            value: CliValue::Text,
            help: "Log level: debug, info, warn, error (default: info)"@,
        },
    ]
}

/// The options of the command line, in the order they are documented.
pub fn cli_options() -> (options: Vec<CliOption>)
    ensures
        options.deep_view() == cli_surface(),
{
    let options = vec![
        CliOption {
            id: "host",
            long: "host",
            short: None,
            default_value: "0.0.0.0",
            value: CliValue::Text,
            help: "Host to listen on (default: 0.0.0.0)",
        },
        CliOption {
            id: "port",
            long: "port",
            short: Some('p'),
            default_value: "3129",
            value: CliValue::Port,
            help: "Port to listen on (default: 3129)",
        },
        CliOption {
            id: "log_level",
            long: "log-level",
            short: Some('l'),
            default_value: "info",
            value: CliValue::Text,
            help: "Log level: debug, info, warn, error (default: info)",
        },
    ];
    proof {
        assert(options.deep_view() =~= cli_surface());
    }
    options
}

/// No two options share a field, a long name or a letter, and the defaults
/// of the command line are those of [`Args`]: the default port reads as
/// [`DEFAULT_PORT`] and the default level names `Info`.
pub proof fn lemma_cli_is_consistent()
    ensures
        forall|i: int, j: int|
            0 <= i < j < cli_surface().len() ==> {
                &&& cli_surface()[i].id != cli_surface()[j].id
                &&& cli_surface()[i].long != cli_surface()[j].long
                &&& cli_surface()[i].short is None || cli_surface()[i].short
                    != cli_surface()[j].short
            },
        cli_surface()[0].default_value == "0.0.0.0"@,
        parse_u16_spec(cli_surface()[1].default_value) == Some(DEFAULT_PORT),
        named_level(cli_surface()[2].default_value) == Some(LogLevel::Info),
{
    reveal_strlit("host");
    reveal_strlit("port");
    reveal_strlit("log_level");
    reveal_strlit("log-level");
    reveal_strlit("3129");
    reveal_strlit("info");
    reveal_strlit("debug");
    assert("host"@[0] == 'h' && "port"@[0] == 'p' && "log_level"@[0] == 'l' && "log-level"@[0]
        == 'l');
    assert("info"@.len() == 4 && "debug"@.len() == 5);
    let d = "3129"@;
    assert(d.len() == 4 && d[0] == '3' && d[1] == '1' && d[2] == '2' && d[3] == '9');
    assert(d.drop_last() =~= seq!['3', '1', '2']);
    assert(d.drop_last().drop_last() =~= seq!['3', '1']);
    assert(d.drop_last().drop_last().drop_last() =~= seq!['3']);
    assert(d.drop_last().drop_last().drop_last().drop_last() =~= Seq::<char>::empty());
    reveal_with_fuel(digits_value, 5);
    assert(digits_value(d) == 3129);
}

} // verus!
