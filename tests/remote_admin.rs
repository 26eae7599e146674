use smartlab::remote_admin::{
    after_restart, after_rpc_shutdown, after_windows_shutdown, power_args, remote_desktop_command,
    remote_desktop_result, rpc_shutdown_args, shutdown_start, vnc_result, vnc_target, vnc_url, vnc_viewers,
    CommandOutcome, Platform,
};

#[test]
fn shutdown_arguments() {
    assert_eq!(rpc_shutdown_args("10.0.0.9"), vec!["rpc", "shutdown", "-I", "10.0.0.9", "-f", "-t", "0"]);
    assert_eq!(power_args("10.0.0.9", false), vec!["/s", "/m", "\\\\10.0.0.9", "/t", "0", "/f"]);
    assert_eq!(power_args("10.0.0.9", true)[0], "/r");
}

#[test]
fn shutdown_flow() {
    let r = shutdown_start("10.0.0.9", Some("root".to_string())).unwrap_err();
    assert!(!r.success);
    assert_eq!(r.message, "SSH shutdown not implemented yet");
    assert!(shutdown_start("10.0.0.9", None).is_ok());
    let done = after_rpc_shutdown("10.0.0.9", &CommandOutcome::Succeeded).unwrap();
    assert_eq!(done.message, "Shutdown command sent via RPC");
    let fallback = after_rpc_shutdown("10.0.0.9", &CommandOutcome::NotRun { error: "x".into() }).unwrap_err();
    assert_eq!(fallback[0], "/s");
    let r = after_windows_shutdown("10.0.0.9", CommandOutcome::Failed { stderr: "access denied".into() });
    assert!(!r.success);
    assert_eq!(r.message, "Shutdown failed: access denied");
    assert_eq!(after_windows_shutdown("10.0.0.9", CommandOutcome::Succeeded).message, "Shutdown command sent");
}

#[test]
fn restart_outcomes() {
    assert_eq!(after_restart("h", CommandOutcome::Succeeded).message, "Restart command sent");
    assert_eq!(after_restart("h", CommandOutcome::NotRun { error: "no such program".into() }).message, "Command error: no such program");
}

#[test]
fn vnc_and_rdp() {
    assert_eq!(vnc_target("10.0.0.3", None), "10.0.0.3:5900");
    assert_eq!(vnc_target("10.0.0.3", Some(5901)), "10.0.0.3:5901");
    assert_eq!(vnc_url("10.0.0.3:5900"), "vnc://10.0.0.3:5900");
    assert_eq!(vnc_viewers(), vec!["vncviewer", "tvnviewer", "C:\\Program Files\\RealVNC\\VNC Viewer\\vncviewer.exe"]);
    assert_eq!(vnc_result("10.0.0.3", "10.0.0.3:5900", true).message, "Opening VNC viewer to 10.0.0.3:5900");
    assert_eq!(vnc_result("10.0.0.3", "10.0.0.3:5900", false).message, "No VNC viewer found. Please install a VNC client.");
    let c = remote_desktop_command(Platform::MacOs, "10.0.0.3");
    assert_eq!(c.program, "open");
    assert_eq!(c.args, vec!["-a", "Microsoft Remote Desktop", "rdp://10.0.0.3"]);
    let c = remote_desktop_command(Platform::Windows, "10.0.0.3");
    assert_eq!(c.program, "mstsc");
    assert_eq!(c.args, vec!["/v:", "10.0.0.3"]);
    assert_eq!(remote_desktop_result(Platform::Linux, "h", Some("x".into())).message, "rdesktop not installed");
    assert_eq!(remote_desktop_result(Platform::Linux, "h", None).message, "Opening Remote Desktop to h");
}
