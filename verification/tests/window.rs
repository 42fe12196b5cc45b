use service_supervisor::disk::FsSnapshot;
use service_supervisor::error::{LocateError, SupervisorError};
use service_supervisor::host::HostContext;
use service_supervisor::launch::{LaunchKind, LaunchPlan};
use service_supervisor::path::FsPath;
use service_supervisor::health::Readiness;
use service_supervisor::window::{
    auto_start_readiness, exit_report, find_and_start_server, health_probe, plan_auto_start,
    probe_outcome, setup, startup_report, AutoStart, ReportLevel, StartupReport,
    DEFAULT_SERVER_PORT, SETTLE_DELAY_MS, STARTUP_DELAY_MS, WINDOW_LABEL,
};

fn loc(text: &str) -> FsPath {
    FsPath {
        anchor: "/".to_string(),
        components: text.split('/').filter(|s| !s.is_empty()).map(|s| s.to_string()).collect(),
    }
}

fn tree(paths: &[&str]) -> FsSnapshot {
    let mut disk = FsSnapshot::new();
    for text in paths {
        disk.record(loc(text));
    }
    disk
}

fn auto_plan(node: &str, dir: &str) -> LaunchPlan {
    LaunchPlan {
        kind: LaunchKind::AutoStart,
        program: node.to_string(),
        args: vec!["dist/index.js".to_string(), "--port".to_string(), "8787".to_string()],
        env: Vec::new(),
        working_dir: Some(loc(dir)),
        capture_output: true,
        kill_on_drop: true,
    }
}

#[test]
fn window_constants() {
    assert_eq!(WINDOW_LABEL, "main");
    assert_eq!(DEFAULT_SERVER_PORT, 8787);
    assert_eq!(STARTUP_DELAY_MS, 500);
    assert_eq!(SETTLE_DELAY_MS, 2000);
}

#[test]
fn setup_schedules_the_automatic_start() {
    assert_eq!(
        setup(true),
        Ok(AutoStart {
            delay_ms: 500,
            port: 8787,
            settle_ms: 2000,
            ready_timeout_ms: 10000,
            poll_interval_ms: 500,
        })
    );
}

#[test]
fn setup_needs_the_main_window() {
    let r = setup(false);
    assert_eq!(r, Err(SupervisorError::MainWindowMissing));
    assert_eq!(r.unwrap_err().message(), "Main window not found");
}

#[test]
fn auto_start_of_a_release_build_runs_beside_the_executable() {
    let r = plan_auto_start(
        Ok("node".to_string()),
        &Ok(loc("/opt/app/host.exe")),
        false,
        "/",
        &FsSnapshot::new(),
    );
    assert_eq!(r, Ok(auto_plan("node", "/opt/app/resources/server")));
}

#[test]
fn auto_start_of_a_debug_build_runs_in_the_source_tree() {
    let disk = tree(&["/w/apps/server", "/w/apps/server/package.json"]);
    let r = plan_auto_start(
        Ok("node.exe".to_string()),
        &Ok(loc("/w/target/debug/host")),
        true,
        "/",
        &disk,
    );
    assert_eq!(r, Ok(auto_plan("node.exe", "/w/apps/server")));
}

#[test]
fn auto_start_reports_a_missing_runtime_first() {
    let r = plan_auto_start(
        Err(LocateError::NodeNotFound),
        &Err("gone".to_string()),
        true,
        "/",
        &FsSnapshot::new(),
    );
    assert_eq!(r, Err(SupervisorError::Locate(LocateError::NodeNotFound)));
    assert_eq!(
        r.unwrap_err().message(),
        "Node.js not found in PATH. Please install Node.js to run the backend server."
    );
}

#[test]
fn auto_start_reports_a_missing_server_directory() {
    let r = plan_auto_start(
        Ok("node".to_string()),
        &Ok(loc("/w/target/debug/host")),
        true,
        "/",
        &FsSnapshot::new(),
    );
    assert_eq!(
        r,
        Err(SupervisorError::Locate(LocateError::ServerDirectoryNotFound {
            exe_dir: "/w/target/debug".to_string()
        }))
    );
    let r = plan_auto_start(
        Ok("node".to_string()),
        &Err("gone".to_string()),
        false,
        "/",
        &FsSnapshot::new(),
    );
    assert_eq!(
        r,
        Err(SupervisorError::Locate(LocateError::ExecutableUnavailable("gone".to_string())))
    );
}

#[test]
fn find_and_start_server_plans_for_what_the_search_path_holds() {
    let host = HostContext {
        tauri_dev: false,
        debug: false,
        debug_build: false,
        current_exe: Ok(loc("/opt/app/host.exe")),
        current_dir: Ok(loc("/home/u")),
        separator: "/".to_string(),
        disk: FsSnapshot::new(),
    };
    let expected = if which::which("node").is_ok() {
        Ok(auto_plan("node", "/opt/app/resources/server"))
    } else if which::which("node.exe").is_ok() {
        Ok(auto_plan("node.exe", "/opt/app/resources/server"))
    } else {
        Err(SupervisorError::Locate(LocateError::NodeNotFound))
    };
    assert_eq!(find_and_start_server(&host), expected);
}

#[test]
fn health_probe_asks_the_health_endpoint_quietly() {
    assert_eq!(
        health_probe(8787),
        LaunchPlan {
            kind: LaunchKind::HealthProbe,
            program: "curl".to_string(),
            args: vec![
                "-s".to_string(),
                "-o".to_string(),
                "nul".to_string(),
                "http://localhost:8787/health".to_string()
            ],
            env: Vec::new(),
            working_dir: None,
            capture_output: true,
            kill_on_drop: false,
        }
    );
}

#[test]
fn only_a_probe_that_ended_well_counts_as_an_answer() {
    assert!(probe_outcome(&Ok(true)));
    assert!(!probe_outcome(&Ok(false)));
    assert!(!probe_outcome(&Err("curl: program not found".to_string())));
}

#[test]
fn automatic_start_is_ready_once_a_probe_is_answered() {
    let auto = setup(true).unwrap();
    assert_eq!(auto_start_readiness(auto, &vec![true]), Some(Readiness::Ready));
    assert_eq!(auto_start_readiness(auto, &vec![false, false, true]), Some(Readiness::Ready));
}

#[test]
fn automatic_start_is_undecided_while_probes_are_due() {
    let auto = setup(true).unwrap();
    assert_eq!(auto_start_readiness(auto, &vec![]), None);
    assert_eq!(auto_start_readiness(auto, &vec![false; 20]), None);
}

#[test]
fn automatic_start_times_out_after_the_probes_that_the_timeout_allows() {
    let auto = setup(true).unwrap();
    assert_eq!(auto_start_readiness(auto, &vec![false; 21]), Some(Readiness::TimedOut));
    let mut late = vec![false; 21];
    late.push(true);
    assert_eq!(auto_start_readiness(auto, &late), Some(Readiness::TimedOut));
    let single = AutoStart { ready_timeout_ms: 0, poll_interval_ms: 0, ..auto };
    assert_eq!(auto_start_readiness(single, &vec![false]), Some(Readiness::TimedOut));
}

#[test]
fn exit_report_is_silent_about_a_clean_exit() {
    assert_eq!(exit_report(&Ok((true, "warning: something".to_string()))), None);
}

#[test]
fn exit_report_quotes_the_error_stream() {
    assert_eq!(
        exit_report(&Ok((false, "EADDRINUSE".to_string()))),
        Some("[Desktop] Server process exited with error: EADDRINUSE".to_string())
    );
}

#[test]
fn exit_report_quotes_the_reason_for_not_knowing() {
    assert_eq!(
        exit_report(&Err("broken pipe".to_string())),
        Some("[Desktop] Server process error: broken pipe".to_string())
    );
}

#[test]
fn startup_report_of_a_ready_backend() {
    assert_eq!(
        startup_report(&Ok(Readiness::Ready)),
        StartupReport {
            line: "[Desktop] Server started successfully on port 8787".to_string(),
            level: ReportLevel::Info,
            alert: None,
        }
    );
}

#[test]
fn startup_report_of_a_timeout_is_a_warning_without_an_alert() {
    assert_eq!(
        startup_report(&Ok(Readiness::TimedOut)),
        StartupReport {
            line: "[Desktop] Server on port 8787 did not become ready in time".to_string(),
            level: ReportLevel::Warning,
            alert: None,
        }
    );
}

#[test]
fn startup_report_of_a_failure_alerts_the_user() {
    let report = startup_report(&Err(SupervisorError::Locate(LocateError::NodeNotFound)));
    assert_eq!(
        report.line,
        "[Desktop] Failed to start server: Node.js not found in PATH. Please install Node.js to run the backend server."
    );
    assert_eq!(report.level, ReportLevel::Error);
    assert_eq!(
        report.alert,
        Some(
            "alert('Failed to start backend server: Node.js not found in PATH. Please install Node.js to run the backend server.\\n\\nPlease make sure Node.js is installed and accessible.');"
                .to_string()
        )
    );
}

#[test]
fn alert_script_holds_escaped_line_breaks() {
    let report = startup_report(&Err(SupervisorError::Locate(LocateError::NodeNotFound)));
    let script = report.alert.unwrap();
    assert!(script.contains("server.\\n\\nPlease"));
    assert!(!script.contains('\n'));
}
