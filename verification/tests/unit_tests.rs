use clap::builder::RangedI64ValueParser;
use clap::{Arg, Command};
use rust_proxy::config::{cli_options, CliValue};
use rust_proxy::{find_request_end, parse_host_port, Args, ProxyStats};
use std::time::Duration;

/// Reads `argv` with the options that the library documents.
fn try_parse_from(argv: &[&str]) -> Result<Args, clap::Error> {
    let mut command = Command::new("rust_proxy");
    for option in cli_options() {
        let mut arg =
            Arg::new(option.id).long(option.long).default_value(option.default_value);
        if let Some(letter) = option.short {
            arg = arg.short(letter);
        }
        if option.value == CliValue::Port {
            arg = arg.value_parser(RangedI64ValueParser::<u16>::new());
        }
        command = command.arg(arg);
    }
    let matches = command.try_get_matches_from(argv)?;
    Ok(Args {
        host: matches.get_one::<String>("host").unwrap().clone(),
        port: *matches.get_one::<u16>("port").unwrap(),
        log_level: matches.get_one::<String>("log_level").unwrap().clone(),
    })
}

#[test]
fn test_find_request_end() {
    // Test with proper CRLFCRLF ending
    let data = b"GET / HTTP/1.1\r\nHost: example.com\r\n\r\n";
    let result = find_request_end(data);
    assert_eq!(result, data.len());

    // Test with more content after headers
    let data = b"GET / HTTP/1.1\r\nHost: example.com\r\n\r\nBody content";
    let result = find_request_end(data);
    assert_eq!(result, data.len() - "Body content".len()); // Position after \r\n\r\n

    // Test with no proper ending
    let data = b"GET / HTTP/1.1\r\nHost: example.com";
    let result = find_request_end(data);
    assert_eq!(result, data.len());

    // Test with mixed newlines
    let data = b"GET / HTTP/1.1\r\nHost: example.com\n\r\n";
    let result = find_request_end(data);
    assert_eq!(result, data.len());
}

#[test]
fn test_parse_host_port() {
    // Test with port
    let (host, port) = parse_host_port("example.com:8080", 80);
    assert_eq!(host, "example.com");
    assert_eq!(port, 8080);

    // Test without port (uses default)
    let (host, port) = parse_host_port("example.com", 80);
    assert_eq!(host, "example.com");
    assert_eq!(port, 80);

    // Test with invalid port (uses default)
    let (host, port) = parse_host_port("example.com:invalid", 80);
    assert_eq!(host, "example.com");
    assert_eq!(port, 80);

    // Test with empty port
    let (host, port) = parse_host_port("example.com:", 80);
    assert_eq!(host, "example.com");
    assert_eq!(port, 80);
}

#[test]
fn test_args_parsing() {
    // Test default arguments
    let args = try_parse_from(&["rust_proxy"]).unwrap();
    assert_eq!(args.host, "0.0.0.0");
    assert_eq!(args.port, 3129);
    assert_eq!(args.log_level, "info");

    // Test custom arguments
    let args = try_parse_from(&[
        "rust_proxy",
        "--host", "127.0.0.1",
        "--port", "8080",
        "--log-level", "debug"
    ]).unwrap();
    assert_eq!(args.host, "127.0.0.1");
    assert_eq!(args.port, 8080);
    assert_eq!(args.log_level, "debug");

    // Test long arguments only for host (no short for host due to conflict with help)
    let args = try_parse_from(&[
        "rust_proxy",
        "--host", "192.168.1.1",
        "-p", "9000",
        "-l", "warn"
    ]).unwrap();
    assert_eq!(args.host, "192.168.1.1");
    assert_eq!(args.port, 9000);
    assert_eq!(args.log_level, "warn");
}

#[test]
fn test_log_level_parsing() {
    // Test valid log levels
    for level in ["debug", "info", "warn", "error"] {
        let args = try_parse_from(&[
            "rust_proxy",
            "--log-level", level
        ]).unwrap();
        assert_eq!(args.log_level, level);
    }

    // Test custom host with default log level
    let args = try_parse_from(&[
        "rust_proxy",
        "--host", "localhost"
    ]).unwrap();
    assert_eq!(args.host, "localhost");
    assert_eq!(args.log_level, "info");

    // Test custom port with default log level
    let args = try_parse_from(&[
        "rust_proxy",
        "--port", "1234"
    ]).unwrap();
    assert_eq!(args.port, 1234);
    assert_eq!(args.log_level, "info");
}

#[test]
fn the_command_line_refuses_what_it_does_not_document() {
    assert!(try_parse_from(&["rust_proxy", "-h", "127.0.0.1"]).is_err());
    assert!(try_parse_from(&["rust_proxy", "--port", "65536"]).is_err());
    assert!(try_parse_from(&["rust_proxy", "--port", "http"]).is_err());
    assert!(try_parse_from(&["rust_proxy", "--verbose"]).is_err());
    assert!(try_parse_from(&["rust_proxy", "extra"]).is_err());
    // the level is any text; it is resolved after parsing
    let args = try_parse_from(&["rust_proxy", "-l", "invalid"]).unwrap();
    assert_eq!(args.log_level, "invalid");
    assert_eq!(args.log_level(), (rust_proxy::LogLevel::Info, false));
}

#[test]
fn the_documented_options_are_host_port_and_log_level() {
    let options = cli_options();
    assert_eq!(options.len(), 3);
    assert_eq!((options[0].id, options[0].long, options[0].short), ("host", "host", None));
    assert_eq!((options[1].id, options[1].long, options[1].short), ("port", "port", Some('p')));
    assert_eq!(
        (options[2].id, options[2].long, options[2].short),
        ("log_level", "log-level", Some('l'))
    );
    assert_eq!(options[0].default_value, "0.0.0.0");
    assert_eq!(options[1].default_value, "3129");
    assert_eq!(options[2].default_value, "info");
    assert_eq!(options[0].value, CliValue::Text);
    assert_eq!(options[1].value, CliValue::Port);
    assert_eq!(options[2].value, CliValue::Text);
    assert_eq!(options[1].help, "Port to listen on (default: 3129)");
}

#[test]
fn test_proxy_stats_creation() {
    let stats = ProxyStats::new();

    // Test initial values
    assert_eq!(stats.total_connections.load(std::sync::atomic::Ordering::Relaxed), 0);
    assert_eq!(stats.active_connections.load(std::sync::atomic::Ordering::Relaxed), 0);
    assert_eq!(stats.bytes_transferred.load(std::sync::atomic::Ordering::Relaxed), 0);
    assert_eq!(stats.http_requests.load(std::sync::atomic::Ordering::Relaxed), 0);
    assert_eq!(stats.https_requests.load(std::sync::atomic::Ordering::Relaxed), 0);
    assert_eq!(stats.connection_errors.load(std::sync::atomic::Ordering::Relaxed), 0);

    // Test that start time is reasonable (within last second)
    let uptime = stats.start_time.elapsed();
    assert!(uptime < Duration::from_secs(1));
}

#[test]
fn test_proxy_stats_counters() {
    let stats = ProxyStats::new();

    // Test connection counters
    stats.total_connections.fetch_add(5, std::sync::atomic::Ordering::Relaxed);
    stats.active_connections.fetch_add(2, std::sync::atomic::Ordering::Relaxed);

    assert_eq!(stats.total_connections.load(std::sync::atomic::Ordering::Relaxed), 5);
    assert_eq!(stats.active_connections.load(std::sync::atomic::Ordering::Relaxed), 2);

    // Test request counters
    stats.http_requests.fetch_add(3, std::sync::atomic::Ordering::Relaxed);
    stats.https_requests.fetch_add(7, std::sync::atomic::Ordering::Relaxed);

    assert_eq!(stats.http_requests.load(std::sync::atomic::Ordering::Relaxed), 3);
    assert_eq!(stats.https_requests.load(std::sync::atomic::Ordering::Relaxed), 7);

    // Test bytes counter
    stats.bytes_transferred.fetch_add(1024, std::sync::atomic::Ordering::Relaxed);
    assert_eq!(stats.bytes_transferred.load(std::sync::atomic::Ordering::Relaxed), 1024);

    // Test error counter
    stats.connection_errors.fetch_add(1, std::sync::atomic::Ordering::Relaxed);
    assert_eq!(stats.connection_errors.load(std::sync::atomic::Ordering::Relaxed), 1);
}

#[test]
fn test_proxy_stats_log_format() {
    let stats = ProxyStats::new();

    // Add some test data
    stats.total_connections.store(100, std::sync::atomic::Ordering::Relaxed);
    stats.active_connections.store(5, std::sync::atomic::Ordering::Relaxed);
    stats.bytes_transferred.store(1048576, std::sync::atomic::Ordering::Relaxed); // 1MB
    stats.http_requests.store(60, std::sync::atomic::Ordering::Relaxed);
    stats.https_requests.store(40, std::sync::atomic::Ordering::Relaxed);
    stats.connection_errors.store(2, std::sync::atomic::Ordering::Relaxed);

    // The report is built without a panic and leaves the counters alone
    stats.log_stats();

    // Verify the data is still correct after logging
    assert_eq!(stats.total_connections.load(std::sync::atomic::Ordering::Relaxed), 100);
    assert_eq!(stats.active_connections.load(std::sync::atomic::Ordering::Relaxed), 5);
    assert_eq!(stats.bytes_transferred.load(std::sync::atomic::Ordering::Relaxed), 1048576);
}
