//! What the host does by itself when its main window opens: it brings the
//! backend up on the default port, probes it until it answers or the time
//! for that is up, and reports.

use crate::disk::FsSnapshot;
use crate::error::{Failure, LocateError, LocateFailure, SupervisorError};
use crate::health::{
    health_url, probe_url, retries_within, timeout_text, timeout_warning, verdict_after,
    wait_ready, Readiness, DEFAULT_POLL_INTERVAL_MS, DEFAULT_READY_TIMEOUT_MS,
};
use crate::host::HostContext;
use crate::launch::{LaunchKind, LaunchPlan, LaunchPlanView};
use crate::locator::{find_node_command, find_server_directory, reported, server_directory};
use crate::path::{FsPath, PathView};
use crate::text::{concat2, concat3, decimal, decimal_string};
use vstd::prelude::*;
use vstd::string::*;

verus! {

/// The label of the host's main window.
pub const WINDOW_LABEL: &'static str = "main";

/// The port on which the backend is brought up.
pub const DEFAULT_SERVER_PORT: u16 = 8787;

/// How long the host waits after its window opened before it brings the
/// backend up, in milliseconds.
pub const STARTUP_DELAY_MS: u64 = 500;

/// How long the host lets the backend settle before it probes it, in
/// milliseconds.
pub const SETTLE_DELAY_MS: u64 = 2000;

/// What the host is to do once its window is open.
#[derive(Clone, Copy, PartialEq, Eq, Structural, Debug)]
pub struct AutoStart {
    /// How long to wait first, in milliseconds.
    pub delay_ms: u64,
    /// The port to bring the backend up on.
    pub port: u16,
    /// How long to let the backend settle before the first probe, in
    /// milliseconds.
    pub settle_ms: u64,
    /// For how long the backend is probed, in milliseconds.
    pub ready_timeout_ms: u64,
    /// How long to sleep between two probes, in milliseconds.
    pub poll_interval_ms: u64,
}

/// How much a line of the host's log weighs.
#[derive(Clone, Copy, PartialEq, Eq, Structural, Debug)]
pub enum ReportLevel {
    /// All is well.
    Info,
    /// Something to look at; nothing was stopped.
    Warning,
    /// The start failed.
    Error,
}

/// What the host writes and shows about the automatic start.
#[derive(Debug, PartialEq, Eq)]
pub struct StartupReport {
    /// The line for the host's log.
    pub line: String,
    /// How much the line weighs.
    pub level: ReportLevel,
    /// The script to run in the main window, where the user must be told.
    pub alert: Option<String>,
}

/// The launch of the backend by the host itself: the script runtime `node`
/// on `dist/index.js` in `server_dir`, on the default port, with its output
/// piped back, ended together with its handle.
pub open spec fn auto_start_plan(node: Seq<char>, server_dir: PathView) -> LaunchPlanView {
    LaunchPlanView {
        kind: LaunchKind::AutoStart,
        program: node,
        args: seq!["dist/index.js"@, "--port"@, decimal(DEFAULT_SERVER_PORT as nat)],
        env: Seq::empty(),
        working_dir: Some(server_dir),
        capture_output: true,
        kill_on_drop: true,
    }
}

/// What planning the automatic start comes to, given what the search for the
/// script runtime came to: a missing runtime comes first, then a missing
/// server directory.
pub open spec fn auto_start(
    node: Result<Seq<char>, LocateFailure>,
    current_exe: Result<PathView, Seq<char>>,
    debug_build: bool,
    separator: Seq<char>,
    disk: Set<PathView>,
) -> Result<LaunchPlanView, Failure> {
    match node {
        Err(failure) => Err(Failure::Locate(failure)),
        Ok(command) => match server_directory(current_exe, debug_build, separator, disk) {
            Err(failure) => Err(Failure::Locate(failure)),
            Ok(dir) => Ok(auto_start_plan(command, dir)),
        },
    }
}

/// What a search for a command came to.
pub open spec fn command_result(r: Result<String, LocateError>) -> Result<
    Seq<char>,
    LocateFailure,
> {
    match r {
        Ok(command) => Ok(command@),
        Err(e) => Err(e@),
    }
}

/// The command that probes the liveness endpoint of the backend on `port`
/// once, quietly, and throws the answer away.
pub open spec fn health_probe_plan(port: u16) -> LaunchPlanView {
    LaunchPlanView {
        kind: LaunchKind::HealthProbe,
        program: "curl"@,
        args: seq!["-s"@, "-o"@, "nul"@, health_url(port)],
        env: Seq::empty(),
        working_dir: None,
        capture_output: true,
        kill_on_drop: false,
    }
}

/// Checks that the host has its main window and says what to do once it is
/// open.
pub fn setup(main_window_found: bool) -> (r: Result<AutoStart, SupervisorError>)
    ensures
        main_window_found ==> r == Ok::<AutoStart, SupervisorError>(
            AutoStart {
                delay_ms: STARTUP_DELAY_MS,
                port: DEFAULT_SERVER_PORT,
                settle_ms: SETTLE_DELAY_MS,
                ready_timeout_ms: DEFAULT_READY_TIMEOUT_MS,
                poll_interval_ms: DEFAULT_POLL_INTERVAL_MS,
            },
        ),
        !main_window_found ==> (r matches Err(e) && e@ == Failure::MainWindowMissing),
{
    if main_window_found {
        Ok(
            AutoStart {
                delay_ms: STARTUP_DELAY_MS,
                port: DEFAULT_SERVER_PORT,
                settle_ms: SETTLE_DELAY_MS,
                ready_timeout_ms: DEFAULT_READY_TIMEOUT_MS,
                poll_interval_ms: DEFAULT_POLL_INTERVAL_MS,
            },
        )
    } else {
        Err(SupervisorError::MainWindowMissing)
    }
}

/// Plans the automatic start from what the search for the script runtime
/// came to.
pub fn plan_auto_start(
    node: Result<String, LocateError>,
    current_exe: &Result<FsPath, String>,
    debug_build: bool,
    separator: &str,
    disk: &FsSnapshot,
) -> (r: Result<LaunchPlan, SupervisorError>)
    ensures
        crate::server::plan_result(r) == auto_start(
            command_result(node),
            reported(*current_exe),
            debug_build,
            separator@,
            disk@,
        ),
{
    let command = match node {
        Ok(command) => command,
        Err(e) => {
            return Err(SupervisorError::Locate(e));
        },
    };
    let server_dir = match find_server_directory(current_exe, debug_build, separator, disk) {
        Ok(dir) => dir,
        Err(e) => {
            return Err(SupervisorError::Locate(e));
        },
    };
    let mut args: Vec<String> = Vec::new();
    args.push("dist/index.js".to_owned());
    args.push("--port".to_owned());
    args.push(decimal_string(DEFAULT_SERVER_PORT));
    let plan = LaunchPlan {
        kind: LaunchKind::AutoStart,
        program: command,
        args,
        env: Vec::new(),
        working_dir: Some(server_dir),
        capture_output: true,
        kill_on_drop: true,
    };
    assert(plan@.args =~= auto_start_plan(plan.program@, server_dir@).args);
    assert(plan@.env =~= Seq::empty());
    Ok(plan)
}

/// Looks for the script runtime on the search path and plans the automatic
/// start with it. Which name the runtime is found under, if any, is the
/// system's answer; the plan is the one for that answer.
pub fn find_and_start_server(host: &HostContext) -> (r: Result<LaunchPlan, SupervisorError>)
    ensures
        exists|node: Result<Seq<char>, LocateFailure>|
            {
                &&& node == Ok::<Seq<char>, LocateFailure>("node"@) || node == Ok::<
                    Seq<char>,
                    LocateFailure,
                >("node.exe"@) || node == Err::<Seq<char>, LocateFailure>(
                    LocateFailure::NodeNotFound,
                )
                &&& crate::server::plan_result(r) == auto_start(
                    node,
                    reported(host.current_exe),
                    host.debug_build,
                    host.separator@,
                    host.disk@,
                )
            },
{
    let node = find_node_command();
    let ghost found = command_result(node);
    let r = plan_auto_start(
        node,
        &host.current_exe,
        host.debug_build,
        host.separator.as_str(),
        &host.disk,
    );
    assert(crate::server::plan_result(r) == auto_start(
        found,
        reported(host.current_exe),
        host.debug_build,
        host.separator@,
        host.disk@,
    ));
    r
}

/// The command that probes the liveness endpoint of the backend on `port`.
pub fn health_probe(port: u16) -> (plan: LaunchPlan)
    ensures
        plan@ == health_probe_plan(port),
{
    let mut args: Vec<String> = Vec::new();
    args.push("-s".to_owned());
    args.push("-o".to_owned());
    args.push("nul".to_owned());
    args.push(probe_url(port));
    let plan = LaunchPlan {
        kind: LaunchKind::HealthProbe,
        program: "curl".to_owned(),
        args,
        env: Vec::new(),
        working_dir: None,
        capture_output: true,
        kill_on_drop: false,
    };
    assert(plan@.args =~= health_probe_plan(port).args);
    assert(plan@.env =~= Seq::empty());
    plan
}

/// Takes up what one run of the probe command came to: whether it ended
/// well, or the system's reason for not running it. Only a probe that ran
/// and ended well counts as an answer.
pub fn probe_outcome(exit: &Result<bool, String>) -> (alive: bool)
    ensures
        alive == (*exit matches Ok(success) && success),
{
    match exit {
        Ok(success) => *success,
        Err(_) => false,
    }
}

/// The health check of the backend that the host brought up by itself, over
/// the outcomes of the probes made so far, in order: ready once a probe was
/// answered in time, timed out once the probes that the timeout allows have
/// all failed, `None` while more probes are due.
pub fn auto_start_readiness(auto: AutoStart, answers: &Vec<bool>) -> (r: Option<Readiness>)
    ensures
        r == verdict_after(retries_within(auto.ready_timeout_ms, auto.poll_interval_ms), answers@),
{
    wait_ready(auto.port, auto.ready_timeout_ms, auto.poll_interval_ms, answers)
}

/// The line for the log when the backend's process has ended: none where it
/// ended well.
pub open spec fn exit_line(outcome: Result<(bool, Seq<char>), Seq<char>>) -> Option<Seq<char>> {
    match outcome {
        Ok((success, stderr)) => if success {
            None
        } else {
            Some("[Desktop] Server process exited with error: "@ + stderr)
        },
        Err(reason) => Some("[Desktop] Server process error: "@ + reason),
    }
}

/// The line for the log when the backend's process has ended. `outcome`
/// holds whether it ended well and what it wrote to its error stream, or the
/// system's reason for not knowing.
pub fn exit_report(outcome: &Result<(bool, String), String>) -> (r: Option<String>)
    ensures
        match exit_line(
            match *outcome {
                Ok((success, stderr)) => Ok((success, stderr@)),
                Err(reason) => Err(reason@),
            },
        ) {
            Some(line) => r matches Some(text) && text@ == line,
            None => r is None,
        },
{
    match outcome {
        Ok((success, stderr)) => {
            if *success {
                None
            } else {
                Some(concat2("[Desktop] Server process exited with error: ", stderr.as_str()))
            }
        },
        Err(reason) => Some(concat2("[Desktop] Server process error: ", reason.as_str())),
    }
}

/// The line that reports a successful automatic start.
pub open spec fn success_line() -> Seq<char> {
    "[Desktop] Server started successfully on port "@ + decimal(DEFAULT_SERVER_PORT as nat)
}

/// The line that reports a failed automatic start.
pub open spec fn failure_line(message: Seq<char>) -> Seq<char> {
    "[Desktop] Failed to start server: "@ + message
}

/// The script that tells the user of a failed automatic start.
pub open spec fn alert_script(message: Seq<char>) -> Seq<char> {
    "alert('Failed to start backend server: "@ + message
        + "\\n\\nPlease make sure Node.js is installed and accessible.');"@
}

/// What is reported of an automatic start that ended as `result`.
pub open spec fn report_line(result: Result<Readiness, Failure>) -> Seq<char> {
    match result {
        Ok(Readiness::Ready) => success_line(),
        Ok(Readiness::TimedOut) => timeout_text(DEFAULT_SERVER_PORT),
        Err(failure) => failure_line(failure.text()),
    }
}

/// What the host writes and shows once the automatic start is over. A
/// backend that answered is reported as started. One that was created but
/// did not answer in time is reported with a warning and nothing else: it is
/// left running, and the user is not alerted. Only a start that failed is an
/// error, of which the user is told in the main window.
pub fn startup_report(result: &Result<Readiness, SupervisorError>) -> (r: StartupReport)
    ensures
        match *result {
            Ok(readiness) => {
                &&& r.line@ == report_line(Ok(readiness))
                &&& r.level == if readiness == Readiness::Ready {
                    ReportLevel::Info
                } else {
                    ReportLevel::Warning
                }
                &&& r.alert is None
            },
            Err(e) => {
                &&& r.line@ == report_line(Err(e@))
                &&& r.level == ReportLevel::Error
                &&& r.alert matches Some(script) && script@ == alert_script(e@.text())
            },
        },
{
    match result {
        Ok(Readiness::Ready) => StartupReport {
            line: concat2(
                "[Desktop] Server started successfully on port ",
                decimal_string(DEFAULT_SERVER_PORT).as_str(),
            ),
            level: ReportLevel::Info,
            alert: None,
        },
        Ok(Readiness::TimedOut) => StartupReport {
            line: timeout_warning(DEFAULT_SERVER_PORT),
            level: ReportLevel::Warning,
            alert: None,
        },
        Err(e) => {
            let message = e.message();
            StartupReport {
                line: concat2("[Desktop] Failed to start server: ", message.as_str()),
                level: ReportLevel::Error,
                alert: Some(
                    concat3(
                        "alert('Failed to start backend server: ",
                        message.as_str(),
                        "\\n\\nPlease make sure Node.js is installed and accessible.');",
                    ),
                ),
            }
        },
    }
}

} // verus!
