use service_supervisor::disk::FsSnapshot;
use service_supervisor::error::{LocateError, SupervisorError};
use service_supervisor::host::HostContext;
use service_supervisor::launch::{LaunchKind, LaunchPlan, Service};
use service_supervisor::path::FsPath;
use service_supervisor::server::{
    start, start_dev_server, start_production_server, started, stop, ServerHandle,
};

fn fp(text: &str) -> FsPath {
    FsPath {
        anchor: "/".to_string(),
        components: text.split('/').filter(|s| !s.is_empty()).map(|s| s.to_string()).collect(),
    }
}

fn files(paths: &[&str]) -> FsSnapshot {
    let mut disk = FsSnapshot::new();
    for text in paths {
        disk.record(fp(text));
    }
    disk
}

fn host(exe: &str, dir: &str, disk: FsSnapshot) -> HostContext {
    HostContext {
        tauri_dev: false,
        debug: false,
        debug_build: false,
        current_exe: Ok(fp(exe)),
        current_dir: Ok(fp(dir)),
        separator: "/".to_string(),
        disk,
    }
}

fn dev_plan(dir: &str) -> LaunchPlan {
    LaunchPlan {
        kind: LaunchKind::DevServer,
        program: "npm".to_string(),
        args: vec!["run".to_string(), "dev".to_string()],
        env: Vec::new(),
        working_dir: Some(fp(dir)),
        capture_output: false,
        kill_on_drop: false,
    }
}

fn production_plan(script: &str, port: &str) -> LaunchPlan {
    LaunchPlan {
        kind: LaunchKind::ProductionServer,
        program: "C:\\Program Files\\nodejs\\node.exe".to_string(),
        args: vec![script.to_string()],
        env: vec![("PORT".to_string(), port.to_string())],
        working_dir: None,
        capture_output: false,
        kill_on_drop: false,
    }
}

#[test]
fn dev_server_runs_npm_in_the_source_tree() {
    let r = start_dev_server(
        &Ok(fp("/w/apps/desktop")),
        &Ok(fp("/w/target/debug/host")),
        "/",
        &files(&["/w/package.json"]),
    );
    assert_eq!(r, Ok(dev_plan("/w/apps/server")));
}

#[test]
fn dev_server_wraps_the_failed_search() {
    let r = start_dev_server(&Ok(fp("/a")), &Ok(fp("/b/host")), "/", &FsSnapshot::new());
    assert_eq!(
        r,
        Err(SupervisorError::ProjectRoot(LocateError::ProjectRootNotFound {
            working_dir: "/a".to_string(),
            exe_dir: "/b".to_string(),
        }))
    );
    assert_eq!(
        r.unwrap_err().message(),
        "Failed to find project root: Could not find project root (package.json) at or above /a or /b"
    );
}

#[test]
fn dev_server_wraps_a_missing_working_directory() {
    let r =
        start_dev_server(&Err("denied".to_string()), &Ok(fp("/b/host")), "/", &FsSnapshot::new());
    assert_eq!(
        r.unwrap_err().message(),
        "Failed to find project root: Failed to get current dir: denied"
    );
}

#[test]
fn production_server_runs_node_on_the_bundled_script() {
    let disk = files(&["/opt/app/resources/server/index.js"]);
    let r = start_production_server(8787, &fp("/opt/app"), "/", &disk);
    assert_eq!(r, Ok(production_plan("/opt/app/resources/server/index.js", "8787")));
}

#[test]
fn production_server_passes_the_port_it_was_given() {
    let disk = files(&["/opt/app/resources/server/index.js"]);
    let plan = start_production_server(3000, &fp("/opt/app"), "/", &disk).unwrap();
    assert_eq!(plan.env, vec![("PORT".to_string(), "3000".to_string())]);
    let plan = start_production_server(0, &fp("/opt/app"), "/", &disk).unwrap();
    assert_eq!(plan.env, vec![("PORT".to_string(), "0".to_string())]);
}

#[test]
fn production_server_reports_where_the_script_should_be() {
    let r = start_production_server(8787, &fp("/opt/app"), "/", &FsSnapshot::new());
    assert_eq!(
        r,
        Err(SupervisorError::Locate(LocateError::ScriptNotFound(
            "/opt/app/resources/server/index.js".to_string()
        )))
    );
    assert_eq!(
        r.unwrap_err().message(),
        "Server executable not found at: /opt/app/resources/server/index.js. Ensure resources are bundled correctly."
    );
}

#[test]
fn start_of_a_packaged_host_is_the_production_launch() {
    let h = host("/opt/app/host.exe", "/home/u", files(&["/opt/app/resources/server/index.js"]));
    assert_eq!(start(8787, &h), Ok(production_plan("/opt/app/resources/server/index.js", "8787")));
}

#[test]
fn start_with_a_development_flag_is_the_development_launch() {
    let mut h = host(
        "/opt/app/host.exe",
        "/w",
        files(&["/opt/app/resources/server/index.js", "/w/package.json"]),
    );
    h.tauri_dev = true;
    assert_eq!(start(8787, &h), Ok(dev_plan("/w/apps/server")));
    h.tauri_dev = false;
    h.debug = true;
    assert_eq!(start(8787, &h), Ok(dev_plan("/w/apps/server")));
}

#[test]
fn start_of_an_executable_without_extension_is_the_development_launch() {
    let h = host("/w/target/debug/host", "/w", files(&["/w/package.json"]));
    assert_eq!(start(8787, &h), Ok(dev_plan("/w/apps/server")));
}

#[test]
fn start_without_a_known_executable_is_the_development_launch() {
    let mut h = host("/x", "/w", files(&["/w/package.json"]));
    h.current_exe = Err("gone".to_string());
    assert_eq!(start(8787, &h), Ok(dev_plan("/w/apps/server")));
}

#[test]
fn start_of_a_packaged_host_does_not_fall_back_to_the_sources() {
    let h = host("/opt/app/host.exe", "/w", files(&["/w/package.json"]));
    assert!(matches!(
        start(8787, &h),
        Err(SupervisorError::Locate(LocateError::ScriptNotFound(_)))
    ));
}

#[test]
fn started_wraps_the_process_with_its_port() {
    let plan = dev_plan("/w/apps/server");
    assert_eq!(started(&plan, 8787, Ok(77u32)), Ok(ServerHandle { child: 77u32, port: 8787 }));
}

#[test]
fn started_reports_the_command_that_failed() {
    let plan = production_plan("/opt/app/resources/server/index.js", "8787");
    let r: Result<ServerHandle<u32>, SupervisorError> =
        started(&plan, 8787, Err("No such file or directory (os error 2)".to_string()));
    assert_eq!(
        r,
        Err(SupervisorError::Spawn {
            kind: LaunchKind::ProductionServer,
            reason: "No such file or directory (os error 2)".to_string(),
            program: "C:\\Program Files\\nodejs\\node.exe".to_string(),
            args: vec!["/opt/app/resources/server/index.js".to_string()],
        })
    );
    assert_eq!(
        r.unwrap_err().message(),
        "Failed to start server: No such file or directory (os error 2) (node: 'C:\\Program Files\\nodejs\\node.exe', script: '/opt/app/resources/server/index.js')"
    );
}

#[test]
fn started_reports_a_failed_development_launch() {
    let r: Result<ServerHandle<u32>, SupervisorError> =
        started(&dev_plan("/w/apps/server"), 8787, Err("not found".to_string()));
    assert_eq!(
        r.unwrap_err().message(),
        "Failed to start dev server: not found. Ensure npm is in PATH"
    );
}

#[test]
fn stop_passes_success_through() {
    assert_eq!(stop(Ok(())), Ok(()));
}

#[test]
fn stop_reports_the_refusal() {
    let r = stop(Err("Operation not permitted".to_string()));
    assert_eq!(
        r,
        Err(SupervisorError::Stop {
            service: Service::Backend,
            reason: "Operation not permitted".to_string()
        })
    );
    assert_eq!(r.unwrap_err().message(), "Failed to stop server: Operation not permitted");
}
