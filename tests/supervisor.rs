use smartlab::mode::{mode_from_config, AppMode};
use smartlab::supervisor::{backend_candidates, first_existing, SearchBase, SupervisorContext};

#[test]
fn advertiser_start_is_idempotent() {
    let mut c = SupervisorContext::new();
    let first = c.start_remote_broadcast();
    assert!(first.spawn);
    assert_eq!(first.message, "Remote broadcast started");
    assert!(c.advertiser_continues());
    let second = c.start_remote_broadcast();
    assert!(!second.spawn);
    assert_eq!(second.message, "Broadcast already running");
    let third = c.start_server_broadcast();
    assert!(!third.spawn);
    assert_eq!(c.stop_server_broadcast(), "Broadcast stopped");
    assert!(!c.advertiser_continues());
    let again = c.start_server_broadcast();
    assert!(again.spawn);
    assert_eq!(again.message, "Server broadcast started");
}

#[test]
fn advertiser_bind_failure_clears_flag() {
    let mut c = SupervisorContext::new();
    c.start_server_broadcast();
    c.advertiser_failed();
    assert!(!c.advertising);
    assert!(c.start_server_broadcast().spawn);
}

#[test]
fn remote_server_restart_on_same_port() {
    let mut c = SupervisorContext::new();
    let port = c.begin_remote_server(Some(5960)).unwrap();
    assert_eq!(port, 5960);
    let st = c.remote_server_bound(port, None).unwrap();
    assert!(st.running);
    assert_eq!(st.message, "Server started on port 5960");
    let again = c.begin_remote_server(Some(6000)).unwrap_err();
    assert!(again.running);
    assert_eq!(again.port, 5960);
    assert_eq!(again.message, "Server already running");
    let stopped = c.stop_remote_server();
    assert!(!stopped.running);
    assert_eq!(stopped.port, 5960);
    assert_eq!(stopped.message, "Server stopped");
    assert!(!c.accept_loop_continues());
    assert_eq!(c.begin_remote_server(Some(5960)).unwrap(), 5960);
}

#[test]
fn remote_server_default_port_and_bind_failure() {
    let mut c = SupervisorContext::new();
    let port = c.begin_remote_server(None).unwrap();
    assert_eq!(port, 5960);
    let e = c.remote_server_bound(port, Some("address in use".to_string())).unwrap_err();
    assert_eq!(e, "Failed to bind: address in use");
    let st = c.remote_server_status();
    assert!(!st.running);
    assert_eq!(st.message, "Stopped");
}

#[test]
fn backend_missing_leaves_flag_false() {
    let mut c = SupervisorContext::new();
    assert!(c.begin_start_backend(false).is_ok());
    let e = c.finish_start_backend(false, None).unwrap_err();
    assert_eq!(
        e,
        "Backend executable not found. Please build backend first with: cd backend && cargo build --release"
    );
    assert!(!c.backend_running);
    assert!(!c.has_child);
}

#[test]
fn backend_spawn_and_stop() {
    let mut c = SupervisorContext::new();
    let e = c.finish_start_backend(true, Some("permission denied".to_string())).unwrap_err();
    assert_eq!(e, "Failed to start backend: permission denied");
    assert!(!c.backend_running);
    let ok = c.finish_start_backend(true, None).unwrap();
    assert!(ok.running);
    assert_eq!(ok.message, "Backend started successfully");
    assert!(c.has_child);
    let (kill, st) = c.stop_backend();
    assert!(kill);
    assert!(!st.running);
    assert_eq!(st.message, "Backend stopped");
    let (kill, _) = c.stop_backend();
    assert!(!kill);
}

#[test]
fn backend_already_answering() {
    let mut c = SupervisorContext::new();
    let st = c.begin_start_backend(true).unwrap_err();
    assert!(st.running);
    assert_eq!(st.message, "Backend already running");
    assert!(c.backend_running);
}

#[test]
fn backend_status_follows_probe() {
    let mut c = SupervisorContext::new();
    c.finish_start_backend(true, None).unwrap();
    let st = c.check_backend_status(false);
    assert!(!st.running);
    assert!(!c.backend_running);
    assert_eq!(st.message, "Backend is not running");
    let st = c.check_backend_status(true);
    assert!(c.backend_running);
    assert_eq!(st.message, "Backend is running");
}

#[test]
fn backend_search_order() {
    let c = backend_candidates();
    assert_eq!(c.len(), 14);
    assert_eq!(c[0].base, SearchBase::ResourceDir);
    assert_eq!(c[0].path, "ip_scanner_api.exe");
    assert_eq!(c[3].base, SearchBase::ExeDir);
    assert_eq!(c[4].base, SearchBase::Relative);
    assert_eq!(c[4].path, "../backend/target/release/ip_scanner_api.exe");
    assert_eq!(c[13].base, SearchBase::CurrentDir);
    assert_eq!(c[13].path, "backend/target/release/ip_scanner_api");
    assert_eq!(first_existing(&vec![false, false, true, true]), Some(2));
    assert_eq!(first_existing(&vec![false; 14]), None);
}

#[test]
fn mode_set_then_loaded() {
    let mut c = SupervisorContext::new();
    assert_eq!(c.get_app_mode(), AppMode::Client);
    let (config, message) = c.set_app_mode("Teacher").unwrap();
    assert_eq!(c.get_app_mode(), AppMode::Teacher);
    assert_eq!(message, "Mode set to Teacher");
    // A restarted process reads the persisted text back.
    assert_eq!(mode_from_config(&config), AppMode::Teacher);
    let (config, _) = c.set_app_mode("Client").unwrap();
    assert_eq!(mode_from_config(&config), AppMode::Client);
}

#[test]
fn unknown_mode_is_refused() {
    let mut c = SupervisorContext::new();
    c.set_app_mode("Teacher").unwrap();
    let e = c.set_app_mode("Admin").unwrap_err();
    assert_eq!(e, "Invalid mode: Admin. Must be Teacher or Client");
    assert_eq!(c.get_app_mode(), AppMode::Teacher);
    assert!(c.set_app_mode("teacher").is_err());
    assert_eq!(c.get_app_mode(), AppMode::Teacher);
}
