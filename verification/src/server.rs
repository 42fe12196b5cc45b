//! The backend server: how it is launched in either layout, and what the
//! host keeps of it while it runs.

use crate::disk::FsSnapshot;
use crate::error::{Failure, LocateError, LocateFailure, SupervisorError};
use crate::host::HostContext;
use crate::launch::{LaunchKind, LaunchPlan, LaunchPlanView, Service};
use crate::locator::{
    containing_dir, containing_dir_of, development_mode, find_node_executable, find_project_root,
    get_server_path, is_development_mode, node_executable, project_root, reported, server_path,
    server_sources_in, server_sources_path,
};
use crate::path::{FsPath, PathView};
use crate::text::{copy_strings, decimal, decimal_string, texts};
use vstd::prelude::*;
use vstd::string::*;

verus! {

/// A running backend server: the process and the port it was started for.
#[derive(Debug, PartialEq, Eq)]
pub struct ServerHandle<H> {
    pub child: H,
    pub port: u16,
}

/// The launch of the server from its source tree below the project root
/// `root`: `npm run dev` in `apps/server`.
pub open spec fn dev_server_plan(root: PathView) -> LaunchPlanView {
    LaunchPlanView {
        kind: LaunchKind::DevServer,
        program: "npm"@,
        args: seq!["run"@, "dev"@],
        env: Seq::empty(),
        working_dir: Some(server_sources_in(root)),
        capture_output: false,
        kill_on_drop: false,
    }
}

/// The launch of the bundled server script whose path reads `script`: the
/// script runtime on that script, with the port in the variable `PORT`.
pub open spec fn production_server_plan(script: Seq<char>, port: u16) -> LaunchPlanView {
    LaunchPlanView {
        kind: LaunchKind::ProductionServer,
        program: node_executable(),
        args: seq![script],
        env: seq![("PORT"@, decimal(port as nat))],
        working_dir: None,
        capture_output: false,
        kill_on_drop: false,
    }
}

/// What planning the development launch comes to: the plan, or the failed
/// search for the project root.
pub open spec fn dev_server_start(
    current_dir: Result<PathView, Seq<char>>,
    current_exe: Result<PathView, Seq<char>>,
    separator: Seq<char>,
    disk: Set<PathView>,
) -> Result<LaunchPlanView, Failure> {
    match project_root(current_dir, current_exe, separator, disk) {
        Ok(root) => Ok(dev_server_plan(root)),
        Err(failure) => Err(Failure::ProjectRoot(failure)),
    }
}

/// What planning the production launch comes to: the plan, or the place
/// where the script should have been.
pub open spec fn production_server_start(
    port: u16,
    exe_dir: PathView,
    separator: Seq<char>,
    disk: Set<PathView>,
) -> Result<LaunchPlanView, Failure> {
    let script = server_path(exe_dir, disk);
    if disk.contains(script) {
        Ok(production_server_plan(script.render(separator), port))
    } else {
        Err(Failure::Locate(LocateFailure::ScriptNotFound(script.render(separator))))
    }
}

/// What planning a launch comes to on a host: the development launch in
/// development mode, else the production launch from the executable's
/// directory.
pub open spec fn server_start(
    port: u16,
    tauri_dev: bool,
    debug: bool,
    current_dir: Result<PathView, Seq<char>>,
    current_exe: Result<PathView, Seq<char>>,
    separator: Seq<char>,
    disk: Set<PathView>,
) -> Result<LaunchPlanView, Failure> {
    if development_mode(tauri_dev, debug, current_exe) {
        dev_server_start(current_dir, current_exe, separator, disk)
    } else {
        production_server_start(port, containing_dir(current_exe->Ok_0), separator, disk)
    }
}

/// What planning came to.
pub open spec fn plan_result(r: Result<LaunchPlan, SupervisorError>) -> Result<
    LaunchPlanView,
    Failure,
> {
    match r {
        Ok(plan) => Ok(plan@),
        Err(e) => Err(e@),
    }
}

/// Plans the launch of the server from its source tree.
pub fn start_dev_server(
    current_dir: &Result<FsPath, String>,
    current_exe: &Result<FsPath, String>,
    separator: &str,
    disk: &FsSnapshot,
) -> (r: Result<LaunchPlan, SupervisorError>)
    ensures
        plan_result(r) == dev_server_start(
            reported(*current_dir),
            reported(*current_exe),
            separator@,
            disk@,
        ),
{
    let root = match find_project_root(current_dir, current_exe, separator, disk) {
        Ok(root) => root,
        Err(e) => {
            return Err(SupervisorError::ProjectRoot(e));
        },
    };
    let mut args: Vec<String> = Vec::new();
    args.push("run".to_owned());
    args.push("dev".to_owned());
    let plan = LaunchPlan {
        kind: LaunchKind::DevServer,
        program: "npm".to_owned(),
        args,
        env: Vec::new(),
        working_dir: Some(server_sources_path(&root)),
        capture_output: false,
        kill_on_drop: false,
    };
    assert(plan@.args =~= seq!["run"@, "dev"@]);
    assert(plan@.env =~= Seq::empty());
    Ok(plan)
}

/// Plans the launch of the bundled server script.
pub fn start_production_server(port: u16, exe_dir: &FsPath, separator: &str, disk: &FsSnapshot) -> (r:
    Result<LaunchPlan, SupervisorError>)
    ensures
        plan_result(r) == production_server_start(port, exe_dir@, separator@, disk@),
{
    let script = get_server_path(exe_dir, disk);
    if !disk.has(&script) {
        return Err(SupervisorError::Locate(LocateError::ScriptNotFound(script.render(separator))));
    }
    let node = match find_node_executable() {
        Ok(node) => node,
        Err(e) => {
            return Err(SupervisorError::Locate(e));
        },
    };
    let mut args: Vec<String> = Vec::new();
    args.push(script.render(separator));
    let mut env: Vec<(String, String)> = Vec::new();
    env.push(("PORT".to_owned(), decimal_string(port)));
    let plan = LaunchPlan {
        kind: LaunchKind::ProductionServer,
        program: node,
        args,
        env,
        working_dir: None,
        capture_output: false,
        kill_on_drop: false,
    };
    assert(plan@.args =~= seq![script@.render(separator@)]);
    assert(plan@.env =~= seq![("PORT"@, decimal(port as nat))]);
    Ok(plan)
}

/// Plans the launch of the server as the host's environment asks.
pub fn start(port: u16, host: &HostContext) -> (r: Result<LaunchPlan, SupervisorError>)
    ensures
        plan_result(r) == server_start(
            port,
            host.tauri_dev,
            host.debug,
            reported(host.current_dir),
            reported(host.current_exe),
            host.separator@,
            host.disk@,
        ),
{
    match &host.current_exe {
        Ok(exe) if !is_development_mode(host.tauri_dev, host.debug, &host.current_exe) => {
            let exe_dir = containing_dir_of(exe);
            start_production_server(port, &exe_dir, host.separator.as_str(), &host.disk)
        },
        _ => start_dev_server(
            &host.current_dir,
            &host.current_exe,
            host.separator.as_str(),
            &host.disk,
        ),
    }
}

/// Takes up what the host's attempt to create the planned process came to:
/// the handle of the running server, or the failure with the system's reason
/// and the command that was attempted.
pub fn started<H>(plan: &LaunchPlan, port: u16, outcome: Result<H, String>) -> (r: Result<
    ServerHandle<H>,
    SupervisorError,
>)
    ensures
        match outcome {
            Ok(child) => r == Ok::<ServerHandle<H>, SupervisorError>(ServerHandle { child, port }),
            Err(reason) => r matches Err(e) && e@ == (Failure::Spawn {
                kind: plan.kind,
                reason: reason@,
                program: plan@.program,
                args: plan@.args,
            }),
        },
{
    match outcome {
        Ok(child) => Ok(ServerHandle { child, port }),
        Err(reason) => {
            let args = copy_strings(&plan.args);
            assert(texts(args@) =~= plan@.args);
            Err(
                SupervisorError::Spawn {
                    kind: plan.kind,
                    reason,
                    program: plan.program.clone(),
                    args,
                },
            )
        },
    }
}

/// Takes up what the host's attempt to end the server's process came to.
pub fn stop(outcome: Result<(), String>) -> (r: Result<(), SupervisorError>)
    ensures
        match outcome {
            Ok(_) => r is Ok,
            Err(reason) => r matches Err(e) && e@ == (Failure::Stop {
                service: Service::Backend,
                reason: reason@,
            }),
        },
{
    match outcome {
        Ok(_) => Ok(()),
        Err(reason) => Err(SupervisorError::Stop { service: Service::Backend, reason }),
    }
}

} // verus!
