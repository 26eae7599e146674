//! The supervisor context: the run flags of the advertiser and of the
//! remote-control server, the server's port, the backend process, and the
//! node's role. Each command takes it and says how it changes.

use vstd::prelude::*;
use crate::commands::{BackendStatus, RemoteServerStatus};
use crate::discovery::REMOTE_CONTROL_PORT;
use crate::mode::{config_chars, config_text, mode_by_name_spec, parse_mode_name, AppMode};
use crate::text::{dec_chars, decimal_text};

verus! {

/// Address where the backend listens, probed to tell whether it runs.
pub const BACKEND_HOST: &'static str = "127.0.0.1";

/// Port where the backend listens.
pub const BACKEND_PORT: u16 = 3000;

/// How long a liveness probe of the backend waits.
pub const BACKEND_PROBE_TIMEOUT_MS: u64 = 500;

/// How long a freshly spawned backend is given to bind its port.
pub const BACKEND_STARTUP_WAIT_MS: u64 = 1000;

/// Process-wide state that the commands share.
#[derive(Clone, Copy, Debug)]
pub struct SupervisorContext {
    /// The advertiser task runs (or is about to).
    pub advertising: bool,
    /// The remote-control server's accept loop runs.
    pub server_running: bool,
    /// Port of the remote-control server, last started or asked for.
    pub server_port: u16,
    /// The backend is believed to run.
    pub backend_running: bool,
    /// A backend child process is held.
    pub has_child: bool,
    /// Role of this node.
    pub mode: AppMode,
}

/// What starting an advertiser did.
#[derive(Debug)]
pub struct AdvertiseStart {
    /// A new advertiser task is to be spawned.
    pub spawn: bool,
    pub message: String,
}

/// State after a start of the advertiser.
pub open spec fn after_start_advertise(c: SupervisorContext) -> SupervisorContext {
    SupervisorContext { advertising: true, ..c }
}

/// Port a start of the remote server asks for.
pub open spec fn requested_port(port: Option<u16>) -> u16 {
    match port {
        Some(p) => p,
        None => REMOTE_CONTROL_PORT,
    }
}

/// The port to bind when the remote server is started, or `None` when it
/// already runs.
pub open spec fn server_start_port(c: SupervisorContext, port: Option<u16>) -> Option<u16> {
    if c.server_running {
        None
    } else {
        Some(requested_port(port))
    }
}

/// State after a start of the remote server is asked for, before binding.
pub open spec fn after_begin_server(c: SupervisorContext, port: Option<u16>) -> SupervisorContext {
    if c.server_running {
        c
    } else {
        SupervisorContext { server_port: requested_port(port), ..c }
    }
}

/// State after the remote server is stopped.
pub open spec fn after_stop_server(c: SupervisorContext) -> SupervisorContext {
    SupervisorContext { server_running: false, ..c }
}

impl SupervisorContext {
    /// The state a process starts in: nothing runs, default port, client role.
    pub fn new() -> (r: SupervisorContext)
        ensures
            !r.advertising,
            !r.server_running,
            r.server_port == REMOTE_CONTROL_PORT,
            !r.backend_running,
            !r.has_child,
            r.mode == AppMode::Client,
    {
        SupervisorContext {
            advertising: false,
            server_running: false,
            server_port: REMOTE_CONTROL_PORT,
            backend_running: false,
            has_child: false,
            mode: AppMode::Client,
        }
    }

    fn start_advertise(&mut self, started: &str) -> (r: AdvertiseStart)
        ensures
            *final(self) == after_start_advertise(*old(self)),
            r.spawn == !old(self).advertising,
            r.message@ == if old(self).advertising {
                "Broadcast already running"@
            } else {
                started@
            },
    {
        if self.advertising {
            return AdvertiseStart {
                spawn: false,
                message: String::from_str("Broadcast already running"),
            };
        }
        self.advertising = true;
        AdvertiseStart { spawn: true, message: String::from_str(started) }
    }

    /// Starts advertising this node as a teacher. While an advertiser runs,
    /// no second one is started and success is still reported.
    pub fn start_server_broadcast(&mut self) -> (r: AdvertiseStart)
        ensures
            *final(self) == after_start_advertise(*old(self)),
            r.spawn == !old(self).advertising,
            r.message@ == if old(self).advertising {
                "Broadcast already running"@
            } else {
                "Server broadcast started"@
            },
    {
        self.start_advertise("Server broadcast started")
    }

    /// Starts advertising this node's remote-control port. While an
    /// advertiser runs, no second one is started and success is still
    /// reported.
    pub fn start_remote_broadcast(&mut self) -> (r: AdvertiseStart)
        ensures
            *final(self) == after_start_advertise(*old(self)),
            r.spawn == !old(self).advertising,
            r.message@ == if old(self).advertising {
                "Broadcast already running"@
            } else {
                "Remote broadcast started"@
            },
    {
        self.start_advertise("Remote broadcast started")
    }

    /// Stops the advertiser: it exits before its next beacon.
    pub fn stop_server_broadcast(&mut self) -> (r: String)
        ensures
            *final(self) == (SupervisorContext { advertising: false, ..*old(self) }),
            r@ == "Broadcast stopped"@,
    {
        self.advertising = false;
        String::from_str("Broadcast stopped")
    }

    /// The advertiser could not bind its socket: its task ends and the flag
    /// is cleared.
    pub fn advertiser_failed(&mut self)
        ensures
            *final(self) == (SupervisorContext { advertising: false, ..*old(self) }),
    {
        self.advertising = false;
    }

    /// Whether the advertiser sends another beacon.
    pub fn advertiser_continues(&self) -> (r: bool)
        ensures
            r == self.advertising,
    {
        self.advertising
    }

    /// First half of starting the remote server: while it runs, its status
    /// is reported and nothing else happens; otherwise the port to bind
    /// (the default one when none is given) is recorded and returned.
    pub fn begin_remote_server(&mut self, port: Option<u16>) -> (r: Result<u16, RemoteServerStatus>)
        ensures
            *final(self) == after_begin_server(*old(self), port),
            match r {
                Ok(p) => server_start_port(*old(self), port) == Some(p),
                Err(s) => {
                    &&& server_start_port(*old(self), port) is None
                    &&& s.running
                    &&& s.port == old(self).server_port
                    &&& s.message@ == "Server already running"@
                },
            },
    {
        if self.server_running {
            return Err(
                RemoteServerStatus {
                    running: true,
                    port: self.server_port,
                    message: String::from_str("Server already running"),
                },
            );
        }
        let p = match port {
            Some(p) => p,
            None => REMOTE_CONTROL_PORT,
        };
        self.server_port = p;
        Ok(p)
    }

    /// Second half of starting the remote server, once binding `port` was
    /// tried: `bind_error` holds the error text if it failed.
    pub fn remote_server_bound(&mut self, port: u16, bind_error: Option<String>) -> (r: Result<
        RemoteServerStatus,
        String,
    >)
        ensures
            match bind_error {
                Some(e) => {
                    &&& *final(self) == *old(self)
                    &&& (r matches Err(m) && m@ == "Failed to bind: "@ + e@)
                },
                None => {
                    &&& *final(self) == (SupervisorContext { server_running: true, ..*old(self) })
                    &&& (r matches Ok(s) && s.running && s.port == port && s.message@
                        == "Server started on port "@ + dec_chars(port as nat))
                },
            },
    {
        match bind_error {
            Some(e) => Err(String::from_str("Failed to bind: ").concat(e.as_str())),
            None => {
                self.server_running = true;
                Ok(
                    RemoteServerStatus {
                        running: true,
                        port,
                        message: String::from_str("Server started on port ").concat(
                            decimal_text(port as u32).as_str(),
                        ),
                    },
                )
            },
        }
    }

    /// Stops the remote server: its accept loop exits after its current
    /// iteration; sessions already open go on until they close.
    pub fn stop_remote_server(&mut self) -> (r: RemoteServerStatus)
        ensures
            *final(self) == after_stop_server(*old(self)),
            !r.running,
            r.port == old(self).server_port,
            r.message@ == "Server stopped"@,
    {
        self.server_running = false;
        RemoteServerStatus {
            running: false,
            port: self.server_port,
            message: String::from_str("Server stopped"),
        }
    }

    /// Status of the remote server.
    pub fn remote_server_status(&self) -> (r: RemoteServerStatus)
        ensures
            r.running == self.server_running,
            r.port == self.server_port,
            r.message@ == if self.server_running {
                "Running"@
            } else {
                "Stopped"@
            },
    {
        RemoteServerStatus {
            running: self.server_running,
            port: self.server_port,
            message: if self.server_running {
                String::from_str("Running")
            } else {
                String::from_str("Stopped")
            },
        }
    }

    /// Whether the accept loop waits for another connection.
    pub fn accept_loop_continues(&self) -> (r: bool)
        ensures
            r == self.server_running,
    {
        self.server_running
    }

    /// First step of starting the backend, given whether its address
    /// answered a probe: if it did, the backend is reported as already
    /// running and nothing is spawned (`Err`); otherwise the executable is
    /// to be looked for (`Ok`).
    pub fn begin_start_backend(&mut self, probe_alive: bool) -> (r: Result<(), BackendStatus>)
        ensures
            (r is Ok) == !probe_alive,
            probe_alive ==> *final(self) == (SupervisorContext {
                backend_running: true,
                ..*old(self)
            }),
            !probe_alive ==> *final(self) == *old(self),
            r matches Err(s) ==> s.running && s.message@ == "Backend already running"@,
    {
        if probe_alive {
            self.backend_running = true;
            Err(BackendStatus { running: true, message: String::from_str("Backend already running") })
        } else {
            Ok(())
        }
    }

    /// Last step of starting the backend: whether an executable was found,
    /// and if so the spawn's error text, if it failed. Only a spawned child
    /// makes the backend count as running.
    pub fn finish_start_backend(&mut self, found: bool, spawn_error: Option<String>) -> (r: Result<
        BackendStatus,
        String,
    >)
        ensures
            (r is Ok) == (found && spawn_error is None),
            r is Ok ==> *final(self) == (SupervisorContext {
                backend_running: true,
                has_child: true,
                ..*old(self)
            }),
            r is Err ==> *final(self) == *old(self),
            r matches Ok(s) ==> s.running && s.message@ == "Backend started successfully"@,
            !found ==> (r matches Err(m) && m@ == backend_not_found_chars()),
            found ==> match spawn_error {
                Some(e) => (r matches Err(m) && m@ == "Failed to start backend: "@ + e@),
                None => true,
            },
    {
        if !found {
            return Err(backend_not_found_message());
        }
        match spawn_error {
            Some(e) => Err(String::from_str("Failed to start backend: ").concat(e.as_str())),
            None => {
                self.backend_running = true;
                self.has_child = true;
                Ok(
                    BackendStatus {
                        running: true,
                        message: String::from_str("Backend started successfully"),
                    },
                )
            },
        }
    }

    /// Stops the backend: returns whether a held child is to be killed and
    /// reaped, and afterwards none is held and none is believed to run.
    pub fn stop_backend(&mut self) -> (r: (bool, BackendStatus))
        ensures
            r.0 == old(self).has_child,
            *final(self) == (SupervisorContext {
                backend_running: false,
                has_child: false,
                ..*old(self)
            }),
            !r.1.running,
            r.1.message@ == "Backend stopped"@,
    {
        let kill = self.has_child;
        self.has_child = false;
        self.backend_running = false;
        (kill, BackendStatus { running: false, message: String::from_str("Backend stopped") })
    }

    /// Records the result of a liveness probe of the backend's address: the
    /// probe decides whether the backend counts as running.
    pub fn check_backend_status(&mut self, probe_alive: bool) -> (r: BackendStatus)
        ensures
            *final(self) == (SupervisorContext { backend_running: probe_alive, ..*old(self) }),
            final(self).backend_running == probe_alive,
            r.running == probe_alive,
            r.message@ == if probe_alive {
                "Backend is running"@
            } else {
                "Backend is not running"@
            },
    {
        self.backend_running = probe_alive;
        BackendStatus {
            running: probe_alive,
            message: if probe_alive {
                String::from_str("Backend is running")
            } else {
                String::from_str("Backend is not running")
            },
        }
    }

    /// The role of this node.
    pub fn get_app_mode(&self) -> (r: AppMode)
        ensures
            r == self.mode,
    {
        self.mode
    }

    /// Sets the role from its name, "Teacher" or "Client", and gives the
    /// config text to persist and the message. Any other name is refused
    /// and leaves the role as it was; nothing is to be persisted.
    pub fn set_app_mode(&mut self, mode: &str) -> (r: Result<(String, String), String>)
        ensures
            match mode_by_name_spec(mode@) {
                Some(m) => {
                    &&& *final(self) == (SupervisorContext { mode: m, ..*old(self) })
                    &&& (r matches Ok(p) && p.0@ == config_chars(m) && p.1@ == "Mode set to "@
                        + mode@)
                },
                None => {
                    &&& *final(self) == *old(self)
                    &&& (r matches Err(e) && e@ == "Invalid mode: "@ + mode@
                        + ". Must be Teacher or Client"@)
                },
            },
    {
        match parse_mode_name(mode) {
            Some(m) => {
                self.mode = m;
                Ok((config_text(m), String::from_str("Mode set to ").concat(mode)))
            },
            None => Err(
                String::from_str("Invalid mode: ").concat(mode).concat(". Must be Teacher or Client"),
            ),
        }
    }
}

/// Message when no backend executable was found.
pub open spec fn backend_not_found_chars() -> Seq<char> {
    "Backend executable not found. Please build backend first with: cd backend && cargo build --release"@
}

fn backend_not_found_message() -> (r: String)
    ensures
        r@ == backend_not_found_chars(),
{
    String::from_str(
        "Backend executable not found. Please build backend first with: cd backend && cargo build --release",
    )
}

/// Where a backend candidate path is looked up.
#[derive(Clone, Copy, Debug, PartialEq, Eq, Structural)]
pub enum SearchBase {
    /// The application's resource directory.
    ResourceDir,
    /// The directory of the running executable.
    ExeDir,
    /// The path as it is, relative to the process.
    Relative,
    /// The current working directory.
    CurrentDir,
}

/// A place where the backend executable may be.
#[derive(Debug)]
pub struct BackendCandidate {
    pub base: SearchBase,
    pub path: String,
}

/// The places searched for the backend executable, in order.
pub open spec fn backend_candidates_spec() -> Seq<(SearchBase, Seq<char>)> {
    seq![
        (SearchBase::ResourceDir, "ip_scanner_api.exe"@),
        (SearchBase::ResourceDir, "ip_scanner_api"@),
        (SearchBase::ExeDir, "ip_scanner_api.exe"@),
        (SearchBase::ExeDir, "ip_scanner_api"@),
        (SearchBase::Relative, "../backend/target/release/ip_scanner_api.exe"@),
        (SearchBase::Relative, "../backend/target/release/ip_scanner_api"@),
        (SearchBase::Relative, "backend/target/release/ip_scanner_api.exe"@),
        (SearchBase::Relative, "backend/target/release/ip_scanner_api"@),
        (SearchBase::Relative, "../backend/target/debug/ip_scanner_api.exe"@),
        (SearchBase::Relative, "../backend/target/debug/ip_scanner_api"@),
        (SearchBase::CurrentDir, "../backend/target/release/ip_scanner_api.exe"@),
        (SearchBase::CurrentDir, "../backend/target/release/ip_scanner_api"@),
        (SearchBase::CurrentDir, "backend/target/release/ip_scanner_api.exe"@),
        (SearchBase::CurrentDir, "backend/target/release/ip_scanner_api"@),
    ]
}

pub open spec fn candidates_view(v: Seq<BackendCandidate>) -> Seq<(SearchBase, Seq<char>)> {
    v.map_values(|c: BackendCandidate| (c.base, c.path@))
}

fn candidate(base: SearchBase, path: &str) -> (r: BackendCandidate)
    ensures
        r.base == base,
        r.path@ == path@,
{
    BackendCandidate { base, path: String::from_str(path) }
}

/// The places searched for the backend executable: the resource directory,
/// the executable's directory, the development paths as they are, then the
/// same paths under the current directory.
pub fn backend_candidates() -> (r: Vec<BackendCandidate>)
    ensures
        candidates_view(r@) == backend_candidates_spec(),
{
    let mut v: Vec<BackendCandidate> = Vec::new();
    v.push(candidate(SearchBase::ResourceDir, "ip_scanner_api.exe"));
    v.push(candidate(SearchBase::ResourceDir, "ip_scanner_api"));
    v.push(candidate(SearchBase::ExeDir, "ip_scanner_api.exe"));
    v.push(candidate(SearchBase::ExeDir, "ip_scanner_api"));
    v.push(candidate(SearchBase::Relative, "../backend/target/release/ip_scanner_api.exe"));
    v.push(candidate(SearchBase::Relative, "../backend/target/release/ip_scanner_api"));
    v.push(candidate(SearchBase::Relative, "backend/target/release/ip_scanner_api.exe"));
    v.push(candidate(SearchBase::Relative, "backend/target/release/ip_scanner_api"));
    v.push(candidate(SearchBase::Relative, "../backend/target/debug/ip_scanner_api.exe"));
    v.push(candidate(SearchBase::Relative, "../backend/target/debug/ip_scanner_api"));
    v.push(candidate(SearchBase::CurrentDir, "../backend/target/release/ip_scanner_api.exe"));
    v.push(candidate(SearchBase::CurrentDir, "../backend/target/release/ip_scanner_api"));
    v.push(candidate(SearchBase::CurrentDir, "backend/target/release/ip_scanner_api.exe"));
    v.push(candidate(SearchBase::CurrentDir, "backend/target/release/ip_scanner_api"));
    assert(candidates_view(v@) =~= backend_candidates_spec());
    v
}

/// The first candidate that exists: `exists[i]` tells whether candidate `i`
/// is an existing file.
pub fn first_existing(exists: &Vec<bool>) -> (r: Option<usize>)
    ensures
        match r {
            Some(i) => i < exists@.len() && exists@[i as int] && forall|j: int|
                0 <= j < i ==> !exists@[j],
            None => forall|j: int| 0 <= j < exists@.len() ==> !exists@[j],
        },
{
    let mut i: usize = 0;
    while i < exists.len()
        invariant
            i <= exists@.len(),
            forall|j: int| 0 <= j < i ==> !exists@[j],
        decreases exists@.len() - i,
    {
        if exists[i] {
            return Some(i);
        }
        i = i + 1;
    }
    None
}

/// Once the remote server is stopped, a new start binds the port it asks
/// for: stopping leaves the port free for the next start.
pub proof fn lemma_restart_after_stop(c: SupervisorContext, port: u16)
    ensures
        server_start_port(after_stop_server(c), Some(port)) == Some(port),
        after_begin_server(after_stop_server(c), Some(port)).server_port == port,
{
}

/// While an advertiser runs, starting one again spawns nothing and leaves
/// the state as it was.
pub proof fn lemma_advertise_idempotent(c: SupervisorContext)
    requires
        c.advertising,
    ensures
        after_start_advertise(c) == c,
{
}

} // verus!
