//! Commands that act on another computer of the room through programs of
//! the operating system: what to run, and what each outcome reports.

use vstd::prelude::*;
use crate::commands::{endpoint_chars, endpoint_text, RemoteCommandResult};

verus! {

/// Program that sends a shutdown over Windows RPC.
pub const RPC_PROGRAM: &'static str = "net";

/// Windows program that shuts down or restarts a computer.
pub const SHUTDOWN_PROGRAM: &'static str = "shutdown";

/// VNC port used when the caller gives none.
pub const DEFAULT_VNC_PORT: u16 = 5900;

/// How a program run ended.
#[derive(Debug, Clone)]
pub enum CommandOutcome {
    /// It ran and exited with success.
    Succeeded,
    /// It ran and failed; its error output.
    Failed { stderr: String },
    /// It could not be run; the error text.
    NotRun { error: String },
}

/// The operating system this node runs on.
#[derive(Clone, Copy, Debug, PartialEq, Eq, Structural)]
pub enum Platform {
    Windows,
    MacOs,
    Linux,
}

/// A program to run with its arguments.
#[derive(Debug)]
pub struct ProgramCall {
    pub program: String,
    pub args: Vec<String>,
}

/// The texts of a list of arguments.
pub open spec fn texts(v: Seq<String>) -> Seq<Seq<char>> {
    v.map_values(|s: String| s@)
}

/// Network path `\\ip` of a computer.
pub open spec fn unc_chars(ip: Seq<char>) -> Seq<char> {
    "\\\\"@ + ip
}

pub open spec fn rpc_shutdown_args_spec(ip: Seq<char>) -> Seq<Seq<char>> {
    seq!["rpc"@, "shutdown"@, "-I"@, ip, "-f"@, "-t"@, "0"@]
}

pub open spec fn power_args_spec(ip: Seq<char>, restart: bool) -> Seq<Seq<char>> {
    seq![if restart { "/r"@ } else { "/s"@ }, "/m"@, unc_chars(ip), "/t"@, "0"@, "/f"@]
}

/// Arguments of `net` that shut `ip` down at once over RPC, forcing
/// programs to close.
pub fn rpc_shutdown_args(ip: &str) -> (r: Vec<String>)
    ensures
        texts(r@) == rpc_shutdown_args_spec(ip@),
{
    let mut v: Vec<String> = Vec::new();
    v.push(String::from_str("rpc"));
    v.push(String::from_str("shutdown"));
    v.push(String::from_str("-I"));
    v.push(String::from_str(ip));
    v.push(String::from_str("-f"));
    v.push(String::from_str("-t"));
    v.push(String::from_str("0"));
    assert(texts(v@) =~= rpc_shutdown_args_spec(ip@));
    v
}

/// Arguments of `shutdown` that shut down (or restart) `ip` at once,
/// forcing programs to close.
pub fn power_args(ip: &str, restart: bool) -> (r: Vec<String>)
    ensures
        texts(r@) == power_args_spec(ip@, restart),
{
    let mut v: Vec<String> = Vec::new();
    v.push(
        if restart {
            String::from_str("/r")
        } else {
            String::from_str("/s")
        },
    );
    v.push(String::from_str("/m"));
    v.push(String::from_str("\\\\").concat(ip));
    v.push(String::from_str("/t"));
    v.push(String::from_str("0"));
    v.push(String::from_str("/f"));
    assert(texts(v@) =~= power_args_spec(ip@, restart));
    v
}

fn command_result(success: bool, message: String, ip: &str) -> (r: RemoteCommandResult)
    ensures
        r.success == success,
        r.message@ == message@,
        r.ip@ == ip@,
{
    RemoteCommandResult { success, message, ip: String::from_str(ip) }
}

/// First step of a remote shutdown: with a user name (a shutdown over SSH)
/// it reports that this is not available; without one it gives the RPC
/// arguments to run.
pub fn shutdown_start(ip: &str, username: Option<String>) -> (r: Result<Vec<String>, RemoteCommandResult>)
    ensures
        match username {
            Some(_) => r matches Err(c) && !c.success && c.ip@ == ip@ && c.message@
                == "SSH shutdown not implemented yet"@,
            None => r matches Ok(a) && texts(a@) == rpc_shutdown_args_spec(ip@),
        },
{
    match username {
        Some(_) => Err(command_result(false, String::from_str("SSH shutdown not implemented yet"), ip)),
        None => Ok(rpc_shutdown_args(ip)),
    }
}

/// Second step of a remote shutdown, once the RPC shutdown ran: success is
/// reported, anything else falls back to the `shutdown` program, whose
/// arguments are given.
pub fn after_rpc_shutdown(ip: &str, outcome: &CommandOutcome) -> (r: Result<RemoteCommandResult, Vec<String>>)
    ensures
        match outcome {
            CommandOutcome::Succeeded => r matches Ok(c) && c.success && c.ip@ == ip@ && c.message@
                == "Shutdown command sent via RPC"@,
            _ => r matches Err(a) && texts(a@) == power_args_spec(ip@, false),
        },
{
    match outcome {
        CommandOutcome::Succeeded => Ok(
            command_result(true, String::from_str("Shutdown command sent via RPC"), ip),
        ),
        _ => Err(power_args(ip, false)),
    }
}

/// The report of a power command (`action` is "Shutdown" or "Restart").
pub open spec fn power_outcome_chars(action: Seq<char>, outcome: CommandOutcome) -> Seq<char> {
    match outcome {
        CommandOutcome::Succeeded => action + " command sent"@,
        CommandOutcome::Failed { stderr } => action + " failed: "@ + stderr@,
        CommandOutcome::NotRun { error } => "Command error: "@ + error@,
    }
}

fn power_result(ip: &str, action: &str, outcome: CommandOutcome) -> (r: RemoteCommandResult)
    ensures
        r.success == (outcome is Succeeded),
        r.ip@ == ip@,
        r.message@ == power_outcome_chars(action@, outcome),
{
    match outcome {
        CommandOutcome::Succeeded => command_result(
            true,
            String::from_str(action).concat(" command sent"),
            ip,
        ),
        CommandOutcome::Failed { stderr } => command_result(
            false,
            String::from_str(action).concat(" failed: ").concat(stderr.as_str()),
            ip,
        ),
        CommandOutcome::NotRun { error } => command_result(
            false,
            String::from_str("Command error: ").concat(error.as_str()),
            ip,
        ),
    }
}

/// Last step of a remote shutdown, once the `shutdown` program ran.
pub fn after_windows_shutdown(ip: &str, outcome: CommandOutcome) -> (r: RemoteCommandResult)
    ensures
        r.success == (outcome is Succeeded),
        r.ip@ == ip@,
        r.message@ == power_outcome_chars("Shutdown"@, outcome),
{
    power_result(ip, "Shutdown", outcome)
}

/// The report of a remote restart, once the `shutdown` program ran with the
/// arguments of `power_args(ip, true)`.
pub fn after_restart(ip: &str, outcome: CommandOutcome) -> (r: RemoteCommandResult)
    ensures
        r.success == (outcome is Succeeded),
        r.ip@ == ip@,
        r.message@ == power_outcome_chars("Restart"@, outcome),
{
    power_result(ip, "Restart", outcome)
}

/// The `ip:port` a VNC viewer connects to, port 5900 when none is given.
pub fn vnc_target(ip: &str, port: Option<u16>) -> (r: String)
    ensures
        r@ == endpoint_chars(
            ip@,
            match port {
                Some(p) => p,
                None => DEFAULT_VNC_PORT,
            },
        ),
{
    let p = match port {
        Some(p) => p,
        None => DEFAULT_VNC_PORT,
    };
    endpoint_text(ip, p)
}

/// The VNC viewers tried in turn on Windows.
pub open spec fn vnc_viewers_spec() -> Seq<Seq<char>> {
    seq!["vncviewer"@, "tvnviewer"@, "C:\\Program Files\\RealVNC\\VNC Viewer\\vncviewer.exe"@]
}

/// The VNC viewers tried in turn on Windows, each given the target as its
/// argument.
pub fn vnc_viewers() -> (r: Vec<String>)
    ensures
        texts(r@) == vnc_viewers_spec(),
{
    let mut v: Vec<String> = Vec::new();
    v.push(String::from_str("vncviewer"));
    v.push(String::from_str("tvnviewer"));
    v.push(String::from_str("C:\\Program Files\\RealVNC\\VNC Viewer\\vncviewer.exe"));
    assert(texts(v@) =~= vnc_viewers_spec());
    v
}

/// The `vnc://` URL that the system opener hands to a VNC viewer on macOS.
pub fn vnc_url(target: &str) -> (r: String)
    ensures
        r@ == "vnc://"@ + target@,
{
    String::from_str("vnc://").concat(target)
}

/// The report once a VNC viewer was, or could not be, opened on `target`.
pub fn vnc_result(ip: &str, target: &str, opened: bool) -> (r: RemoteCommandResult)
    ensures
        r.success == opened,
        r.ip@ == ip@,
        r.message@ == if opened {
            "Opening VNC viewer to "@ + target@
        } else {
            "No VNC viewer found. Please install a VNC client."@
        },
{
    if opened {
        command_result(true, String::from_str("Opening VNC viewer to ").concat(target), ip)
    } else {
        command_result(false, String::from_str("No VNC viewer found. Please install a VNC client."), ip)
    }
}

/// The remote-desktop client each platform launches, with its arguments.
pub open spec fn remote_desktop_spec(platform: Platform, ip: Seq<char>) -> (Seq<char>, Seq<Seq<char>>) {
    match platform {
        Platform::Windows => ("mstsc"@, seq!["/v:"@, ip]),
        Platform::MacOs => ("open"@, seq!["-a"@, "Microsoft Remote Desktop"@, "rdp://"@ + ip]),
        Platform::Linux => ("rdesktop"@, seq![ip]),
    }
}

/// The program that opens a remote desktop on `ip`.
pub fn remote_desktop_command(platform: Platform, ip: &str) -> (r: ProgramCall)
    ensures
        (r.program@, texts(r.args@)) == remote_desktop_spec(platform, ip@),
{
    let mut args: Vec<String> = Vec::new();
    let program = match platform {
        Platform::Windows => {
            args.push(String::from_str("/v:"));
            args.push(String::from_str(ip));
            String::from_str("mstsc")
        },
        Platform::MacOs => {
            args.push(String::from_str("-a"));
            args.push(String::from_str("Microsoft Remote Desktop"));
            args.push(String::from_str("rdp://").concat(ip));
            String::from_str("open")
        },
        Platform::Linux => {
            args.push(String::from_str(ip));
            String::from_str("rdesktop")
        },
    };
    assert(texts(args@) =~= remote_desktop_spec(platform, ip@).1);
    ProgramCall { program, args }
}

/// The report once the remote-desktop client was launched, or failed to be
/// (`launch_error` holds the error text).
pub fn remote_desktop_result(platform: Platform, ip: &str, launch_error: Option<String>) -> (r:
    RemoteCommandResult)
    ensures
        r.success == (launch_error is None),
        r.ip@ == ip@,
        match launch_error {
            None => r.message@ == "Opening Remote Desktop to "@ + ip@,
            Some(e) => r.message@ == match platform {
                Platform::Windows => "Failed to open RDP: "@ + e@,
                Platform::MacOs => "Microsoft Remote Desktop not installed"@,
                Platform::Linux => "rdesktop not installed"@,
            },
        },
{
    match launch_error {
        None => command_result(true, String::from_str("Opening Remote Desktop to ").concat(ip), ip),
        Some(e) => {
            let message = match platform {
                Platform::Windows => String::from_str("Failed to open RDP: ").concat(e.as_str()),
                Platform::MacOs => String::from_str("Microsoft Remote Desktop not installed"),
                Platform::Linux => String::from_str("rdesktop not installed"),
            };
            command_result(false, message, ip)
        },
    }
}

} // verus!
