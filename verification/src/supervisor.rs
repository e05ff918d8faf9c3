//! Process supervision decisions. The supervisor observes three things:
//! the PID file (absent, or holding a pid and port), whether that pid is
//! alive, and the service log. Every decision — start, stop, status, and
//! each poll of a starting child — is a pure function of those
//! observations; the surrounding command performs the spawning,
//! signalling and file handling these decisions call for.

use vstd::prelude::*;
use crate::digits::{dec_digits, uint_from_chars, parse_u32_chars, parse_u16_chars, u16_to_chars,
    u32_to_chars};
use crate::text::{chars_to_string, contains_seq, contains_sub, find_char, find_char_from,
    spec_trim, str_to_chars, subvec, trim};

verus! {

/// Name of the PID file inside the configuration directory.
pub fn pid_path(config_dir: &str) -> (r: String)
    ensures
        r@ == config_dir@ + "/server.pid"@,
{
    let mut s = config_dir.to_owned();
    s.append("/server.pid");
    s
}

/// Name of the log file inside the configuration directory.
pub fn log_path(config_dir: &str) -> (r: String)
    ensures
        r@ == config_dir@ + "/server.log"@,
{
    let mut s = config_dir.to_owned();
    s.append("/server.log");
    s
}

/// The recorded (pid, port) a PID file's text denotes: the text is
/// trimmed; the part before the first colon must parse as a `u32` pid;
/// the part between the first and second colons gives the port when it
/// parses as a `u16`, and the port 3005 otherwise or when absent.
pub open spec fn spec_parse_pid_file(s: Seq<char>) -> Option<(int, int)> {
    let t = spec_trim(s);
    let e = find_char_from(t, ':', 0);
    match uint_from_chars(t.subrange(0, e)) {
        Some(p) => if p <= u32::MAX {
            Some((p, spec_pid_file_port(t, e)))
        } else {
            None
        },
        None => None,
    }
}

/// The port field of a trimmed PID file text, given the position of the
/// first colon (or the text length when there is none).
pub open spec fn spec_pid_file_port(t: Seq<char>, e: int) -> int {
    if e >= t.len() {
        3005
    } else {
        let e2 = find_char_from(t, ':', e + 1);
        match uint_from_chars(t.subrange(e + 1, e2)) {
            Some(q) => if q <= u16::MAX {
                q
            } else {
                3005
            },
            None => 3005,
        }
    }
}

/// Reads the (pid, port) a PID file's text records; `None` when the pid
/// cannot be parsed.
pub fn parse_pid_file(content: &str) -> (r: Option<(u32, u16)>)
    ensures
        match r {
            Some(pp) => spec_parse_pid_file(content@) == Some((pp.0 as int, pp.1 as int)),
            None => spec_parse_pid_file(content@) is None,
        },
{
    let v = str_to_chars(content);
    let t = trim(&v);
    let e = find_char(&t, ':', 0);
    let pid_part = subvec(&t, 0, e);
    match parse_u32_chars(&pid_part) {
        None => None,
        Some(pid) => {
            let port: u16 = if e >= t.len() {
                3005
            } else {
                let e2 = find_char(&t, ':', e + 1);
                let port_part = subvec(&t, e + 1, e2);
                match parse_u16_chars(&port_part) {
                    Some(q) => q,
                    None => 3005,
                }
            };
            Some((pid, port))
        },
    }
}

/// Renders the PID file text `pid:port`.
pub fn pid_file_contents(pid: u32, port: u16) -> (r: String)
    ensures
        r@ == dec_digits(pid as int) + ":"@ + dec_digits(port as int),
{
    let pd = u32_to_chars(pid);
    let qd = u16_to_chars(port);
    let mut s = chars_to_string(&pd);
    s.append(":");
    let qs = chars_to_string(&qd);
    s.append(qs.as_str());
    s
}

/// The log line fragment the service emits once it has bound its port.
pub open spec fn ready_marker() -> Seq<char> {
    "Server listening on"@
}

/// The log line fragment that signals the port was already taken.
pub open spec fn conflict_marker() -> Seq<char> {
    "Address already in use"@
}

/// Tests whether the log shows the service ready.
pub fn log_has_ready(log: &str) -> (r: bool)
    ensures
        r == contains_seq(log@, ready_marker()),
{
    let v = str_to_chars(log);
    let m = str_to_chars("Server listening on");
    proof {
        reveal_strlit("Server listening on");
    }
    contains_sub(&v, &m)
}

/// Tests whether the log shows a port conflict.
pub fn log_has_conflict(log: &str) -> (r: bool)
    ensures
        r == contains_seq(log@, conflict_marker()),
{
    let v = str_to_chars(log);
    let m = str_to_chars("Address already in use");
    proof {
        reveal_strlit("Address already in use");
    }
    contains_sub(&v, &m)
}

/// What `start` must do, given the observations.
#[derive(Clone, Copy, Debug, PartialEq, Eq)]
pub enum StartPlan {
    /// A remote server is configured: nothing to manage locally.
    RemoteNoop,
    /// The recorded process is alive: report it, spawn nothing.
    AlreadyRunning { pid: u32, port: u16 },
    /// The recorded process is dead: remove the stale PID file, then
    /// spawn.
    CleanStaleAndSpawn,
    /// No PID file: spawn.
    Spawn,
}

/// The `start` decision: a remote configuration is a no-op; a live
/// recorded process means "already running"; a dead one is stale and is
/// purged before spawning; no record means spawn.
pub open spec fn spec_plan_start(remote: bool, pid_file: Option<(u32, u16)>, alive: bool) -> StartPlan {
    if remote {
        StartPlan::RemoteNoop
    } else {
        match pid_file {
            Some(pp) => if alive {
                StartPlan::AlreadyRunning { pid: pp.0, port: pp.1 }
            } else {
                StartPlan::CleanStaleAndSpawn
            },
            None => StartPlan::Spawn,
        }
    }
}

/// Decides what `start` does from the configuration, the PID file and
/// the liveness of the recorded pid.
pub fn plan_start(remote: bool, pid_file: Option<(u32, u16)>, alive: bool) -> (r: StartPlan)
    ensures
        r == spec_plan_start(remote, pid_file, alive),
{
    if remote {
        StartPlan::RemoteNoop
    } else {
        match pid_file {
            Some(pp) => if alive {
                StartPlan::AlreadyRunning { pid: pp.0, port: pp.1 }
            } else {
                StartPlan::CleanStaleAndSpawn
            },
            None => StartPlan::Spawn,
        }
    }
}

/// What one poll of a starting child calls for.
#[derive(Clone, Copy, Debug, PartialEq, Eq)]
pub enum PollVerdict {
    /// The child is alive and the log shows readiness: report success.
    Ready,
    /// The child is alive but not ready yet: keep waiting.
    Wait,
    /// The child died and the log shows a port conflict.
    FailedPortConflict,
    /// The child died with no recognizable cause in the log.
    FailedStartup,
}

/// The verdict of one poll: a dead child is classified by the log's
/// conflict marker; a live child is ready exactly when the readiness
/// marker has appeared.
pub open spec fn spec_poll_step(alive: bool, log: Seq<char>) -> PollVerdict {
    if !alive {
        if contains_seq(log, conflict_marker()) {
            PollVerdict::FailedPortConflict
        } else {
            PollVerdict::FailedStartup
        }
    } else if contains_seq(log, ready_marker()) {
        PollVerdict::Ready
    } else {
        PollVerdict::Wait
    }
}

/// Judges one poll of a starting child from its liveness and the log.
pub fn poll_step(alive: bool, log: &str) -> (r: PollVerdict)
    ensures
        r == spec_poll_step(alive, log@),
{
    if !alive {
        if log_has_conflict(log) {
            PollVerdict::FailedPortConflict
        } else {
            PollVerdict::FailedStartup
        }
    } else if log_has_ready(log) {
        PollVerdict::Ready
    } else {
        PollVerdict::Wait
    }
}

/// How an exhausted startup-poll budget is reported.
#[derive(Clone, Copy, Debug, PartialEq, Eq)]
pub enum StartupFailure {
    /// The log shows the port was already taken.
    PortConflict,
    /// No recognizable cause: report a generic startup failure.
    Generic,
}

/// The classification of a failed startup from the log.
pub open spec fn spec_classify_failure(log: Seq<char>) -> StartupFailure {
    if contains_seq(log, conflict_marker()) {
        StartupFailure::PortConflict
    } else {
        StartupFailure::Generic
    }
}

/// Classifies a failed startup from the log.
pub fn classify_failure(log: &str) -> (r: StartupFailure)
    ensures
        r == spec_classify_failure(log@),
{
    if log_has_conflict(log) {
        StartupFailure::PortConflict
    } else {
        StartupFailure::Generic
    }
}

/// What `stop` must do, given the observations.
#[derive(Clone, Copy, Debug, PartialEq, Eq)]
pub enum StopPlan {
    /// A remote server is configured: nothing to stop locally.
    RemoteNoop,
    /// No PID file: report "not running", touch nothing.
    NotRunning,
    /// The recorded process is already dead: only remove the PID file.
    RemoveFile,
    /// Signal the recorded process, wait briefly for it to die, then
    /// remove the PID file.
    SignalWaitRemove { pid: u32 },
}

/// The `stop` decision: a remote configuration is a no-op; with no
/// record it reports "not running"; a live recorded process is signalled
/// and the PID file removed; a dead one only has its file removed.
/// Stopping an already-stopped installation is never an error.
pub open spec fn spec_plan_stop(remote: bool, pid_file: Option<(u32, u16)>, alive: bool) -> StopPlan {
    if remote {
        StopPlan::RemoteNoop
    } else {
        match pid_file {
            None => StopPlan::NotRunning,
            Some(pp) => if alive {
                StopPlan::SignalWaitRemove { pid: pp.0 }
            } else {
                StopPlan::RemoveFile
            },
        }
    }
}

/// Decides what `stop` does from the configuration, the PID file and
/// the liveness of the recorded pid.
pub fn plan_stop(remote: bool, pid_file: Option<(u32, u16)>, alive: bool) -> (r: StopPlan)
    ensures
        r == spec_plan_stop(remote, pid_file, alive),
{
    if remote {
        StopPlan::RemoteNoop
    } else {
        match pid_file {
            None => StopPlan::NotRunning,
            Some(pp) => if alive {
                StopPlan::SignalWaitRemove { pid: pp.0 }
            } else {
                StopPlan::RemoveFile
            },
        }
    }
}

/// What `status` reports, before the separate health probe.
#[derive(Clone, Copy, Debug, PartialEq, Eq)]
pub enum StatusReport {
    /// A remote server is configured; its health is probed remotely.
    Remote,
    /// No PID file: not running.
    NotRunning,
    /// The PID file names a dead process: remove it, report not running.
    Stale,
    /// The recorded process is alive: report it, then probe its health.
    Running { pid: u32, port: u16 },
}

/// The `status` decision: remote configurations are reported as such;
/// a missing record means not running; a dead recorded process is stale
/// and its file is cleaned up; a live one is reported running.
pub open spec fn spec_plan_status(remote: bool, pid_file: Option<(u32, u16)>, alive: bool) -> StatusReport {
    if remote {
        StatusReport::Remote
    } else {
        match pid_file {
            None => StatusReport::NotRunning,
            Some(pp) => if alive {
                StatusReport::Running { pid: pp.0, port: pp.1 }
            } else {
                StatusReport::Stale
            },
        }
    }
}

/// Decides what `status` reports from the configuration, the PID file
/// and the liveness of the recorded pid.
pub fn plan_status(remote: bool, pid_file: Option<(u32, u16)>, alive: bool) -> (r: StatusReport)
    ensures
        r == spec_plan_status(remote, pid_file, alive),
{
    if remote {
        StatusReport::Remote
    } else {
        match pid_file {
            None => StatusReport::NotRunning,
            Some(pp) => if alive {
                StatusReport::Running { pid: pp.0, port: pp.1 }
            } else {
                StatusReport::Stale
            },
        }
    }
}

/// The advice printed when the port is taken, suggesting the next one.
pub fn port_conflict_message(port: u16) -> (r: String)
    requires
        port < 0xffff,
    ensures
        r@ == "Port "@ + dec_digits(port as int)
            + " is already in use. Try a different port:\n  workers-spec start --port "@
            + dec_digits(port as int + 1),
{
    let pd = u16_to_chars(port);
    let nd = u16_to_chars(port + 1);
    let mut s = "Port ".to_owned();
    let ps = chars_to_string(&pd);
    s.append(ps.as_str());
    s.append(" is already in use. Try a different port:\n  workers-spec start --port ");
    let ns = chars_to_string(&nd);
    s.append(ns.as_str());
    s
}

/// Stopping an already-stopped installation succeeds without signalling
/// anything, and afterwards no PID file remains: with no file the plan
/// only reports "not running"; with a stale file it only removes it.
pub proof fn lemma_stop_when_stopped(pid_file: Option<(u32, u16)>, alive: bool)
    requires
        pid_file is None || !alive,
    ensures
        spec_plan_stop(false, pid_file, alive) == StopPlan::NotRunning || spec_plan_stop(
            false,
            pid_file,
            alive,
        ) == StopPlan::RemoveFile,
        pid_file is None ==> spec_plan_stop(false, pid_file, alive) == StopPlan::NotRunning,
{
}

/// Starting while the recorded process is alive reports "already
/// running" with that pid and port: nothing is spawned and the PID file
/// is untouched.
pub proof fn lemma_start_when_running(pid: u32, port: u16)
    ensures
        spec_plan_start(false, Some((pid, port)), true) == (StartPlan::AlreadyRunning {
            pid,
            port,
        }),
{
}

/// A start that succeeded saw the child alive with the readiness marker
/// in the log, and a status check that still finds the recorded pid
/// alive reports the installation running; the health probe is a
/// separate, network-level axis.
pub proof fn lemma_started_then_status_running(log: Seq<char>, pid: u32, port: u16)
    requires
        spec_poll_step(true, log) == PollVerdict::Ready,
    ensures
        contains_seq(log, ready_marker()),
        spec_plan_status(false, Some((pid, port)), true) == (StatusReport::Running { pid, port }),
{
}

/// A PID file naming a dead process is stale: `status` reports it stale
/// (removing the file), and the next `start` removes it and proceeds to
/// spawn.
pub proof fn lemma_stale_pid_file(pid: u32, port: u16)
    ensures
        spec_plan_start(false, Some((pid, port)), false) == StartPlan::CleanStaleAndSpawn,
        spec_plan_status(false, Some((pid, port)), false) == StatusReport::Stale,
{
}

} // verus!
