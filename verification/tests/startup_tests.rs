use rust_proxy::config::{listen_address, parse_log_level, resolve_log_level, LogLevel, DEFAULT_PORT};
use rust_proxy::platform::{
    cmd_arguments, elevated_script, firewall_script, powershell_arguments, CommandOutput,
    SetupAction, SetupEvent, SetupState,
};
use rust_proxy::{
    execute_cmd_batch, execute_powershell_script, is_running_as_admin, setup_windows_environment,
    Admission, AdmissionController, Args, BUFFER_SIZE, CONNECT_TIMEOUT_SECS, IDLE_TIMEOUT_SECS,
    MAX_CONNECTIONS, MAX_DOWNLOAD_SIZE,
};

#[test]
fn the_limits_have_their_documented_values() {
    assert_eq!(BUFFER_SIZE, 64 * 1024);
    assert_eq!(MAX_CONNECTIONS, 10000);
    assert_eq!(CONNECT_TIMEOUT_SECS, 10);
    assert_eq!(IDLE_TIMEOUT_SECS, 300);
    assert_eq!(MAX_DOWNLOAD_SIZE, 1024 * 1024 * 1024);
    assert_eq!(DEFAULT_PORT, 3129);
}

#[test]
fn a_pool_grants_up_to_its_capacity() {
    let mut pool = AdmissionController::new(3);
    assert_eq!(pool.capacity(), 3);
    assert_eq!(pool.outstanding(), 0);
    assert_eq!(pool.acquire(), Admission::Granted);
    assert_eq!(pool.acquire(), Admission::Granted);
    assert_eq!(pool.acquire(), Admission::Granted);
    assert_eq!(pool.outstanding(), 3);
    assert_eq!(pool.acquire(), Admission::Busy);
    assert_eq!(pool.acquire(), Admission::Busy);
    assert_eq!(pool.outstanding(), 3);
    pool.release();
    assert_eq!(pool.outstanding(), 2);
    assert_eq!(pool.acquire(), Admission::Granted);
    assert_eq!(pool.acquire(), Admission::Busy);
}

#[test]
fn outstanding_permits_never_pass_the_capacity() {
    let mut pool = AdmissionController::new(MAX_CONNECTIONS);
    let mut granted = 0;
    for round in 0..3 * MAX_CONNECTIONS {
        if pool.acquire() == Admission::Granted {
            granted += 1;
        }
        if round % 7 == 0 {
            pool.release();
            granted -= 1;
        }
        assert_eq!(pool.outstanding(), granted);
        assert!(pool.outstanding() <= MAX_CONNECTIONS);
    }
    assert_eq!(pool.outstanding(), MAX_CONNECTIONS);
}

#[test]
fn a_release_without_a_permit_changes_nothing() {
    let mut pool = AdmissionController::new(2);
    pool.release();
    assert_eq!(pool.outstanding(), 0);
    assert_eq!(pool.acquire(), Admission::Granted);
    assert_eq!(pool.acquire(), Admission::Granted);
    assert_eq!(pool.acquire(), Admission::Busy);
}

#[test]
fn a_pool_without_permits_is_always_busy() {
    let mut pool = AdmissionController::new(0);
    assert_eq!(pool.acquire(), Admission::Busy);
    assert_eq!(pool.outstanding(), 0);
}

#[test]
fn a_closed_pool_hands_out_nothing() {
    let mut pool = AdmissionController::new(2);
    assert_eq!(pool.acquire(), Admission::Granted);
    pool.close();
    assert_eq!(pool.acquire(), Admission::Unavailable);
    assert_eq!(pool.outstanding(), 1);
    pool.release();
    assert_eq!(pool.outstanding(), 0);
    assert_eq!(pool.acquire(), Admission::Unavailable);
}

#[test]
fn log_levels_are_named_exactly() {
    assert_eq!(parse_log_level("debug"), Some(LogLevel::Debug));
    assert_eq!(parse_log_level("info"), Some(LogLevel::Info));
    assert_eq!(parse_log_level("warn"), Some(LogLevel::Warn));
    assert_eq!(parse_log_level("error"), Some(LogLevel::Error));
    assert_eq!(parse_log_level("Info"), None);
    assert_eq!(parse_log_level("trace"), None);
    assert_eq!(parse_log_level(""), None);
    assert_eq!(parse_log_level("warn "), None);
}

#[test]
fn an_unknown_log_level_falls_back_to_info() {
    assert_eq!(resolve_log_level("invalid"), (LogLevel::Info, false));
    assert_eq!(resolve_log_level("info"), (LogLevel::Info, true));
    assert_eq!(resolve_log_level("error"), (LogLevel::Error, true));
    assert_eq!(resolve_log_level("DEBUG"), (LogLevel::Info, false));
}

#[test]
fn the_listen_address_is_host_colon_port() {
    assert_eq!(listen_address("0.0.0.0", 3129), "0.0.0.0:3129");
    assert_eq!(listen_address("127.0.0.1", 0), "127.0.0.1:0");
    assert_eq!(listen_address("localhost", 65535), "localhost:65535");
    assert_eq!(listen_address("", 1), ":1");
}

#[test]
fn arguments_default_to_all_interfaces_port_3129_and_info() {
    let args = Args::default();
    assert_eq!(args.host, "0.0.0.0");
    assert_eq!(args.port, 3129);
    assert_eq!(args.log_level, "info");
    assert_eq!(args.listen_address(), "0.0.0.0:3129");
    assert_eq!(args.log_level(), (LogLevel::Info, true));
}

#[test]
fn arguments_resolve_to_address_and_level() {
    let args =
        Args { host: "127.0.0.1".to_string(), port: 8080, log_level: "debug".to_string() };
    assert_eq!(args.listen_address(), "127.0.0.1:8080");
    assert_eq!(args.log_level(), (LogLevel::Debug, true));
    let args = Args { host: "192.168.1.1".to_string(), port: 9000, log_level: "warn".to_string() };
    assert_eq!(args.listen_address(), "192.168.1.1:9000");
    assert_eq!(args.log_level(), (LogLevel::Warn, true));
    let args = Args { host: "localhost".to_string(), port: 1234, log_level: "invalid".to_string() };
    assert_eq!(args.listen_address(), "localhost:1234");
    assert_eq!(args.log_level(), (LogLevel::Info, false));
}

#[test]
fn the_scripts_name_the_port() {
    let script = firewall_script(3129);
    assert!(script.starts_with("\n# Minimal firewall setup\ntry {\n    New-NetFirewallRule"));
    assert!(script.contains("-DisplayName \"Open Port 3129\" -Direction Inbound"));
    assert!(script.contains("-LocalPort 3129 -Action Allow"));
    assert!(script.contains("delete rule name=\"Open Port 3129\" 2>$null"));
    assert!(script.contains(
        "add rule name=\"Open Port 3129\" dir=in action=allow protocol=TCP localport=3129\n"
    ));
    assert!(script.ends_with("Write-Host \"Firewall rule added via netsh\"\n}\n"));
    assert_eq!(script.matches("3129").count(), 5);
    let script = elevated_script(8080);
    assert!(script.starts_with("\n# Start elevated PowerShell session if not already elevated\n"));
    assert!(script.contains("Write-Host \"Firewall rule added for port 8080\"\n} catch { \n"));
    assert!(script.contains("powercfg /setactive SCHEME_CURRENT\n\"@\n"));
    assert!(script.ends_with("Write-Host \"Windows environment setup completed\"\n"));
    assert_eq!(script.matches("8080").count(), 6);
    assert_eq!(elevated_script(1).len() + 18, elevated_script(8080).len());
}

#[test]
fn powershell_runs_a_script_as_a_command() {
    assert_eq!(
        powershell_arguments("Write-Host hi"),
        vec!["-ExecutionPolicy", "Bypass", "-Command", "Write-Host hi"]
    );
}

#[test]
fn a_batch_is_joined_with_and() {
    assert_eq!(cmd_arguments(&vec!["a", "b c", "d"]), vec!["/C", "a && b c && d"]);
    assert_eq!(cmd_arguments(&vec!["only"]), vec!["/C", "only"]);
    assert_eq!(cmd_arguments(&Vec::new()), vec!["/C", ""]);
    assert_eq!(cmd_arguments(&vec!["", ""]), vec!["/C", " && "]);
}

fn output(success: bool, stdout: &[u8], stderr: &[u8]) -> CommandOutput {
    CommandOutput { success, stdout: stdout.to_vec(), stderr: stderr.to_vec() }
}

#[test]
fn a_command_gives_its_output_or_its_complaint() {
    assert_eq!(
        execute_powershell_script(&output(true, b"done\r\n", b"ignored")),
        Ok("done\r\n".to_string())
    );
    assert_eq!(
        execute_powershell_script(&output(false, b"ignored", b"access denied\n")),
        Err("PowerShell command failed: access denied\n".to_string())
    );
    assert_eq!(
        execute_powershell_script(&output(true, b"caf\xe9", b"")),
        Ok("caf\u{fffd}".to_string())
    );
    assert_eq!(execute_cmd_batch(&output(true, b"x", b"y")), Ok(()));
    assert_eq!(
        execute_cmd_batch(&output(false, b"x", b"no such \xff command")),
        Err("CMD batch failed: no such \u{fffd} command".to_string())
    );
}

#[test]
fn only_a_probe_that_succeeded_means_admin() {
    assert!(is_running_as_admin(Some(true)));
    assert!(!is_running_as_admin(Some(false)));
    assert!(!is_running_as_admin(None));
}

#[test]
fn the_setup_falls_back_once_and_then_proceeds() {
    let (state, action) = setup_windows_environment(SetupState::Start, SetupEvent::Begin, 3129);
    assert_eq!(state, SetupState::Full);
    assert_eq!(action, SetupAction::Run { script: elevated_script(3129) });
    let (state, action) = setup_windows_environment(state, SetupEvent::ScriptFailed, 3129);
    assert_eq!(state, SetupState::FirewallOnly);
    assert_eq!(action, SetupAction::Run { script: firewall_script(3129) });
    let (state, action) = setup_windows_environment(state, SetupEvent::ScriptFailed, 3129);
    assert_eq!(state, SetupState::Done);
    assert_eq!(action, SetupAction::Proceed);
    let (state, action) = setup_windows_environment(state, SetupEvent::Begin, 3129);
    assert_eq!(state, SetupState::Done);
    assert_eq!(action, SetupAction::Proceed);
}

#[test]
fn a_setup_that_succeeds_runs_one_script() {
    let (state, _) = setup_windows_environment(SetupState::Start, SetupEvent::Begin, 1);
    let (state, action) = setup_windows_environment(state, SetupEvent::ScriptSucceeded, 1);
    assert_eq!(state, SetupState::Done);
    assert_eq!(action, SetupAction::Proceed);
    let (state, _) = setup_windows_environment(SetupState::Start, SetupEvent::Begin, 1);
    let (state, _) = setup_windows_environment(state, SetupEvent::ScriptFailed, 1);
    let (state, action) = setup_windows_environment(state, SetupEvent::ScriptSucceeded, 1);
    assert_eq!(state, SetupState::Done);
    assert_eq!(action, SetupAction::Proceed);
    // an event that answers nothing ends the setup
    let (state, action) = setup_windows_environment(SetupState::Start, SetupEvent::ScriptFailed, 1);
    assert_eq!(state, SetupState::Done);
    assert_eq!(action, SetupAction::Proceed);
}
