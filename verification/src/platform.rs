//! The one-time adjustment of a Windows host at startup: the scripts to run
//! and what to do when one fails. Running them is the caller's part, and
//! nothing here can stop the proxy from starting.

use vstd::prelude::*;
use crate::decimal::{decimal, format_u64};
use crate::head::{decode_lossy, utf8_lossy};

verus! {

/// The full setup script up to the first place that names the port.
pub const ELEVATED_0: &'static str = r#"
# Start elevated PowerShell session if not already elevated
if (-NOT ([Security.Principal.WindowsPrincipal] [Security.Principal.WindowsIdentity]::GetCurrent()).IsInRole([Security.Principal.WindowsBuiltInRole] "Administrator")) {
    Write-Host "Not running as administrator - some optimizations skipped"
    exit 0
}

Write-Host "Running with administrator privileges - applying all optimizations"

# Network and firewall setup (non-UAC intensive)
try {
    Get-NetConnectionProfile | Set-NetConnectionProfile -NetworkCategory Private -ErrorAction SilentlyContinue
    Write-Host "Network profiles set to Private"
} catch { Write-Host "Network setup failed" }

try {
    New-NetFirewallRule -DisplayName "Open Port "#;

/// The full setup script between two places that name the port.
pub const ELEVATED_1: &'static str = r#"" -Direction Inbound -Protocol TCP -LocalPort "#;

/// The full setup script between two places that name the port.
pub const ELEVATED_2: &'static str = r#" -Action Allow -ErrorAction SilentlyContinue
    Write-Host "Firewall rule added for port "#;

/// The full setup script between two places that name the port.
pub const ELEVATED_3: &'static str = r#""
} catch { 
    try {
        netsh advfirewall firewall delete rule name="Open Port "#;

/// The full setup script between two places that name the port.
pub const ELEVATED_4: &'static str = r#"" 2>$null
        netsh advfirewall firewall add rule name="Open Port "#;

/// The full setup script between two places that name the port.
pub const ELEVATED_5: &'static str = r#"" dir=in action=allow protocol=TCP localport="#;

/// The full setup script after the last place that names the port.
pub const ELEVATED_6: &'static str = r#"
        Write-Host "Firewall rule added via netsh"
    } catch { Write-Host "Firewall setup failed" }
}

# Power settings - use a single elevated command to minimize prompts
try {
    # Create a temporary script to run all power commands at once
    $powerScript = @"
powercfg /setdcvalueindex SCHEME_CURRENT SUB_BUTTONS LIDACTION 0
powercfg /setacvalueindex SCHEME_CURRENT SUB_BUTTONS LIDACTION 0
powercfg /setactive SCHEME_CURRENT
"@
    
    # Run power commands in a single elevated process
    Start-Process cmd.exe -ArgumentList "/c", $powerScript -Verb RunAs -Wait -WindowStyle Hidden
    Write-Host "Power settings configured"
} catch { 
    # Fallback: try non-elevated power settings (may work for some users)
    try {
        powercfg /setdcvalueindex SCHEME_CURRENT SUB_BUTTONS LIDACTION 0 2>$null
        powercfg /setacvalueindex SCHEME_CURRENT SUB_BUTTONS LIDACTION 0 2>$null
        powercfg /setactive SCHEME_CURRENT 2>$null
        Write-Host "Power settings configured (non-elevated)"
    } catch { Write-Host "Power configuration failed" }
}

Write-Host "Windows environment setup completed"
"#;

/// The firewall-only script up to the first place that names the port.
pub const FIREWALL_0: &'static str = r#"
# Minimal firewall setup
try {
    New-NetFirewallRule -DisplayName "Open Port "#;

/// The firewall-only script between two places that name the port.
pub const FIREWALL_1: &'static str = r#"" -Direction Inbound -Protocol TCP -LocalPort "#;

/// The firewall-only script between two places that name the port.
pub const FIREWALL_2: &'static str = r#" -Action Allow -ErrorAction SilentlyContinue
    Write-Host "Firewall rule added successfully"
} catch {
    netsh advfirewall firewall delete rule name="Open Port "#;

/// The firewall-only script between two places that name the port.
pub const FIREWALL_3: &'static str = r#"" 2>$null
    netsh advfirewall firewall add rule name="Open Port "#;

/// The firewall-only script between two places that name the port.
pub const FIREWALL_4: &'static str = r#"" dir=in action=allow protocol=TCP localport="#;

/// The firewall-only script after the last place that names the port.
pub const FIREWALL_5: &'static str = r#"
    Write-Host "Firewall rule added via netsh"
}
"#;

/// The script that sets the network profile, opens the port in the firewall
/// and keeps the machine awake with the lid closed.
pub open spec fn elevated_script_text(port: u16) -> Seq<char> {
    ELEVATED_0@ + decimal(port as nat)
        + ELEVATED_1@ + decimal(port as nat)
        + ELEVATED_2@ + decimal(port as nat)
        + ELEVATED_3@ + decimal(port as nat)
        + ELEVATED_4@ + decimal(port as nat)
        + ELEVATED_5@ + decimal(port as nat)
        + ELEVATED_6@
}

/// The script that only opens the port in the firewall.
pub open spec fn firewall_script_text(port: u16) -> Seq<char> {
    FIREWALL_0@ + decimal(port as nat)
        + FIREWALL_1@ + decimal(port as nat)
        + FIREWALL_2@ + decimal(port as nat)
        + FIREWALL_3@ + decimal(port as nat)
        + FIREWALL_4@ + decimal(port as nat)
        + FIREWALL_5@
}

/// Writes the full setup script for `port`.
pub fn elevated_script(port: u16) -> (script: String)
    ensures
        script@ == elevated_script_text(port),
{
    let digits = format_u64(port as u64);
    let mut script = String::from_str(ELEVATED_0);
    script.append(digits.as_str());
    script.append(ELEVATED_1);
    script.append(digits.as_str());
    script.append(ELEVATED_2);
    script.append(digits.as_str());
    script.append(ELEVATED_3);
    script.append(digits.as_str());
    script.append(ELEVATED_4);
    script.append(digits.as_str());
    script.append(ELEVATED_5);
    script.append(digits.as_str());
    script.append(ELEVATED_6);
    script
}

/// Writes the firewall-only script for `port`.
pub fn firewall_script(port: u16) -> (script: String)
    ensures
        script@ == firewall_script_text(port),
{
    let digits = format_u64(port as u64);
    let mut script = String::from_str(FIREWALL_0);
    script.append(digits.as_str());
    script.append(FIREWALL_1);
    script.append(digits.as_str());
    script.append(FIREWALL_2);
    script.append(digits.as_str());
    script.append(FIREWALL_3);
    script.append(digits.as_str());
    script.append(FIREWALL_4);
    script.append(digits.as_str());
    script.append(FIREWALL_5);
    script
}

/// What running a command produced.
pub struct CommandOutput {
    /// Whether the command exited with success.
    pub success: bool,
    /// What it wrote to standard output.
    pub stdout: Vec<u8>,
    /// What it wrote to standard error.
    pub stderr: Vec<u8>,
}

/// The arguments that make PowerShell run `script`.
pub open spec fn powershell_arguments_text(script: Seq<char>) -> Seq<Seq<char>> {
    seq!["-ExecutionPolicy"@, "Bypass"@, "-Command"@, script]
}

/// The arguments that make PowerShell run `script`.
pub fn powershell_arguments(script: &str) -> (args: Vec<String>)
    ensures
        args.deep_view() == powershell_arguments_text(script@),
{
    let mut args: Vec<String> = Vec::new();
    args.push(String::from_str("-ExecutionPolicy"));
    args.push(String::from_str("Bypass"));
    args.push(String::from_str("-Command"));
    args.push(String::from_str(script));
    args
}

/// What a finished command amounts to, given as text what it wrote to the
/// stream that counts: the text itself where it succeeded, else `complaint`
/// followed by the text.
pub open spec fn settled_command(success: bool, text: Seq<char>, complaint: Seq<char>) -> Result<
    Seq<char>,
    Seq<char>,
> {
    if success {
        Ok(text)
    } else {
        Err(complaint + text)
    }
}

/// What a finished command amounts to: standard output counts where it
/// succeeded, standard error where it failed, each read as text.
pub open spec fn command_result(output: CommandOutput, complaint: Seq<char>) -> Result<
    Seq<char>,
    Seq<char>,
> {
    if output.success {
        settled_command(true, utf8_lossy(output.stdout@), complaint)
    } else {
        settled_command(false, utf8_lossy(output.stderr@), complaint)
    }
}

/// An exec result of texts agrees with a spec result.
pub open spec fn same_result(r: Result<String, String>, expected: Result<Seq<char>, Seq<char>>)
    -> bool {
    match r {
        Ok(text) => expected == Ok::<Seq<char>, Seq<char>>(text@),
        Err(text) => expected == Err::<Seq<char>, Seq<char>>(text@),
    }
}

/// The result of a finished command, given as text what it wrote to the
/// stream that counts.
pub fn settle_command(success: bool, text: String, complaint: &str) -> (r: Result<String, String>)
    ensures
        same_result(r, settled_command(success, text@, complaint@)),
{
    if success {
        Ok(text)
    } else {
        let mut message = String::from_str(complaint);
        message.append(text.as_str());
        Err(message)
    }
}

fn result_of(output: &CommandOutput, complaint: &str) -> (r: Result<String, String>)
    ensures
        same_result(r, command_result(*output, complaint@)),
{
    let text = if output.success {
        decode_lossy(output.stdout.as_slice())
    } else {
        decode_lossy(output.stderr.as_slice())
    };
    settle_command(output.success, text, complaint)
}

/// The result of a PowerShell script, given what running it produced.
pub fn execute_powershell_script(output: &CommandOutput) -> (r: Result<String, String>)
    ensures
        same_result(r, command_result(*output, "PowerShell command failed: "@)),
{
    result_of(output, "PowerShell command failed: ")
}

/// `commands` joined by ` && `.
pub open spec fn joined_commands(commands: Seq<Seq<char>>) -> Seq<char>
    decreases commands.len(),
{
    if commands.len() == 0 {
        Seq::empty()
    } else if commands.len() == 1 {
        commands[0]
    } else {
        joined_commands(commands.drop_last()) + " && "@ + commands.last()
    }
}

/// The arguments that make the command interpreter run `commands` in order,
/// each only if the one before it succeeded.
pub fn cmd_arguments(commands: &Vec<&str>) -> (args: Vec<String>)
    ensures
        args.deep_view() == seq!["/C"@, joined_commands(commands.deep_view())],
{
    let mut line = String::new();
    let mut i: usize = 0;
    while i < commands.len()
        invariant
            i <= commands@.len(),
            line@ == joined_commands(commands.deep_view().take(i as int)),
        decreases commands@.len() - i,
    {
        proof {
            let next = commands.deep_view().take(i + 1);
            assert(next.drop_last() =~= commands.deep_view().take(i as int));
        }
        if i > 0 {
            line.append(" && ");
        }
        line.append(commands[i]);
        i += 1;
    }
    proof {
        assert(commands.deep_view().take(i as int) =~= commands.deep_view());
    }
    let mut args: Vec<String> = Vec::new();
    args.push(String::from_str("/C"));
    args.push(line);
    args
}

/// The result of a batch of commands, given what running it produced.
pub fn execute_cmd_batch(output: &CommandOutput) -> (r: Result<(), String>)
    ensures
        r is Ok == output.success,
        r matches Err(message) ==> message@ == "CMD batch failed: "@ + utf8_lossy(output.stderr@),
{
    match result_of(output, "CMD batch failed: ") {
        Ok(_) => Ok(()),
        Err(message) => Err(message),
    }
}

/// Whether the process runs with administrator rights, given how the probe
/// command ended: `None` where it could not be run.
pub fn is_running_as_admin(probe: Option<bool>) -> (r: bool)
    ensures
        r == (probe == Some(true)),
{
    match probe {
        Some(success) => success,
        None => false,
    }
}

/// Where the setup stands.
#[derive(Clone, Copy, Debug, PartialEq, Eq, Structural)]
pub enum SetupState {
    /// Nothing was run yet.
    Start,
    /// The full script is running.
    Full,
    /// The full script failed and the firewall-only script is running.
    FirewallOnly,
    /// The setup is over; the proxy starts.
    Done,
}

/// What the caller observed.
#[derive(Clone, Copy, Debug, PartialEq, Eq, Structural)]
pub enum SetupEvent {
    /// The setup was asked for.
    Begin,
    /// The script that was running succeeded.
    ScriptSucceeded,
    /// The script that was running failed or could not be run.
    ScriptFailed,
}

/// What the caller is to do next.
#[derive(Debug, PartialEq, Eq)]
pub enum SetupAction {
    /// Run `script` with PowerShell and report how it ended.
    Run { script: String },
    /// Go on with startup.
    Proceed,
}

/// Mathematical value of a [`SetupAction`].
pub enum SetupActionView {
    Run { script: Seq<char> },
    Proceed,
}

impl View for SetupAction {
    type V = SetupActionView;

    open spec fn view(&self) -> SetupActionView {
        match self {
            SetupAction::Run { script } => SetupActionView::Run { script: script@ },
            SetupAction::Proceed => SetupActionView::Proceed,
        }
    }
}

/// One step of the setup for `port`: first the full script; if that fails,
/// the firewall-only script; then startup goes on, whatever happened.
pub open spec fn setup_step(state: SetupState, event: SetupEvent, port: u16) -> (
    SetupState,
    SetupActionView,
) {
    match (state, event) {
        (SetupState::Start, SetupEvent::Begin) => (
            SetupState::Full,
            SetupActionView::Run { script: elevated_script_text(port) },
        ),
        (SetupState::Full, SetupEvent::ScriptFailed) => (
            SetupState::FirewallOnly,
            SetupActionView::Run { script: firewall_script_text(port) },
        ),
        _ => (SetupState::Done, SetupActionView::Proceed),
    }
}

/// Advances the setup by what the caller observed and tells it what to do
/// next.
pub fn setup_windows_environment(state: SetupState, event: SetupEvent, port: u16) -> (r: (
    SetupState,
    SetupAction,
))
    ensures
        (r.0, r.1@) == setup_step(state, event, port),
{
    match (state, event) {
        (SetupState::Start, SetupEvent::Begin) => (
            SetupState::Full,
            SetupAction::Run { script: elevated_script(port) },
        ),
        (SetupState::Full, SetupEvent::ScriptFailed) => (
            SetupState::FirewallOnly,
            SetupAction::Run { script: firewall_script(port) },
        ),
        _ => (SetupState::Done, SetupAction::Proceed),
    }
}

/// The setup runs at most two scripts and then lets startup go on: after any
/// three events it is done, and it stays done.
pub proof fn lemma_setup_never_blocks(
    state: SetupState,
    first: SetupEvent,
    second: SetupEvent,
    third: SetupEvent,
    port: u16,
)
    ensures
        ({
            let one = setup_step(state, first, port).0;
            let two = setup_step(one, second, port).0;
            let three = setup_step(two, third, port);
            &&& three.0 is Done
            &&& three.1 is Proceed
        }),
        setup_step(SetupState::Done, first, port) == (SetupState::Done, SetupActionView::Proceed),
{
}

} // verus!
