use workers_spec::config::Config;
use workers_spec::errors::SpecError;
use workers_spec::installer::plugins_dir;
use workers_spec::supervisor::{
    classify_failure, log_has_conflict, log_has_ready, log_path, parse_pid_file,
    pid_file_contents, pid_path, plan_start, plan_status, plan_stop, poll_step,
    port_conflict_message, PollVerdict, StartPlan, StartupFailure, StatusReport, StopPlan,
};

#[test]
fn pid_file_parse_pid_and_port() {
    assert_eq!(parse_pid_file("123:4567"), Some((123, 4567)));
    assert_eq!(parse_pid_file(" 123:4567\n"), Some((123, 4567)));
    assert_eq!(parse_pid_file("123"), Some((123, 3005)));
    assert_eq!(parse_pid_file("123:"), Some((123, 3005)));
    assert_eq!(parse_pid_file("123:notaport"), Some((123, 3005)));
    assert_eq!(parse_pid_file("123:99999"), Some((123, 3005)));
    assert_eq!(parse_pid_file("123:80:extra"), Some((123, 80)));
}

#[test]
fn pid_file_parse_rejects_bad_pid() {
    assert_eq!(parse_pid_file(""), None);
    assert_eq!(parse_pid_file("notapid"), None);
    assert_eq!(parse_pid_file(":3005"), None);
    assert_eq!(parse_pid_file("99999999999999:3005"), None);
}

#[test]
fn pid_file_round_trip() {
    let text = pid_file_contents(4242, 3005);
    assert_eq!(text, "4242:3005");
    assert_eq!(parse_pid_file(&text), Some((4242, 3005)));
    assert_eq!(pid_file_contents(0, 0), "0:0");
    assert_eq!(
        parse_pid_file(&pid_file_contents(u32::MAX, u16::MAX)),
        Some((u32::MAX, u16::MAX))
    );
}

#[test]
fn log_markers_detected() {
    let ready = "db ready\nServer listening on 0.0.0.0:3005\n";
    let conflict = "Error: Address already in use (os error 98)";
    assert!(log_has_ready(ready));
    assert!(!log_has_conflict(ready));
    assert!(log_has_conflict(conflict));
    assert!(!log_has_ready(conflict));
    assert!(!log_has_ready(""));
    assert!(!log_has_conflict(""));
}

#[test]
fn start_plan_remote_is_noop() {
    assert_eq!(plan_start(true, Some((7, 3005)), true), StartPlan::RemoteNoop);
    assert_eq!(plan_start(true, None, false), StartPlan::RemoteNoop);
}

#[test]
fn start_on_running_installation_reports_already_running() {
    assert_eq!(
        plan_start(false, Some((77, 3005)), true),
        StartPlan::AlreadyRunning { pid: 77, port: 3005 }
    );
}

#[test]
fn start_with_stale_pid_file_cleans_and_spawns() {
    assert_eq!(
        plan_start(false, Some((77, 3005)), false),
        StartPlan::CleanStaleAndSpawn
    );
    assert_eq!(plan_start(false, None, false), StartPlan::Spawn);
}

#[test]
fn stop_on_stopped_installation_is_not_an_error() {
    assert_eq!(plan_stop(false, None, false), StopPlan::NotRunning);
    assert_eq!(plan_stop(false, Some((9, 3005)), false), StopPlan::RemoveFile);
    assert_eq!(plan_stop(true, Some((9, 3005)), true), StopPlan::RemoteNoop);
    assert_eq!(
        plan_stop(false, Some((9, 3005)), true),
        StopPlan::SignalWaitRemove { pid: 9 }
    );
}

#[test]
fn status_reports_stale_and_running() {
    assert_eq!(plan_status(false, None, false), StatusReport::NotRunning);
    assert_eq!(plan_status(false, Some((5, 3005)), false), StatusReport::Stale);
    assert_eq!(
        plan_status(false, Some((5, 3005)), true),
        StatusReport::Running { pid: 5, port: 3005 }
    );
    assert_eq!(plan_status(true, None, false), StatusReport::Remote);
}

#[test]
fn poll_step_classifies_each_observation() {
    assert_eq!(poll_step(true, "Server listening on 0.0.0.0:3005"), PollVerdict::Ready);
    assert_eq!(poll_step(true, "still booting"), PollVerdict::Wait);
    assert_eq!(
        poll_step(false, "Error: Address already in use"),
        PollVerdict::FailedPortConflict
    );
    assert_eq!(poll_step(false, "panic: boom"), PollVerdict::FailedStartup);
}

#[test]
fn startup_failure_classification() {
    assert_eq!(
        classify_failure("Address already in use"),
        StartupFailure::PortConflict
    );
    assert_eq!(classify_failure("segfault"), StartupFailure::Generic);
}

#[test]
fn port_conflict_message_suggests_next_port() {
    let msg = port_conflict_message(3005);
    assert_eq!(
        msg,
        "Port 3005 is already in use. Try a different port:\n  workers-spec start --port 3006"
    );
}

#[test]
fn paths_join_well_known_names() {
    assert_eq!(pid_path("/home/u/.config/workers-spec"), "/home/u/.config/workers-spec/server.pid");
    assert_eq!(log_path("/home/u/.config/workers-spec"), "/home/u/.config/workers-spec/server.log");
    assert_eq!(plugins_dir("/home/u/.tool"), "/home/u/.tool/plugins");
}

#[test]
fn config_default_is_local() {
    let c = Config::default();
    assert_eq!(c.api_url, "https://spec.workers.io");
    assert!(!c.is_remote());
    let remote = Config { api_url: "http://myhost:3005".to_string() };
    assert!(remote.is_remote());
}

#[test]
fn spec_error_messages() {
    assert_eq!(SpecError::HomeNotFound.message(), "Home directory not found");
    let e = SpecError::SessionNotFound {
        session_id: "abc".to_string(),
        projects_dir: "/home/u/projects".to_string(),
    };
    assert_eq!(
        e.message(),
        "Session file abc.jsonl not found in any project directory under /home/u/projects"
    );
    assert_eq!(
        SpecError::Io("denied".to_string()).message(),
        "Failed to read directory: denied"
    );
}
