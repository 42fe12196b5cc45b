//! The control surface that the host's command handlers call: start, stop
//! and status for each service, on the state of that service alone.
//!
//! The host keeps one state per service behind a lock of its own and holds
//! that lock around each operation here. A start and a stop come in two
//! steps, with the host's work between them: the first step admits the
//! request and says what to do, the second takes up what came of it.

use crate::descriptor::{
    resolution, resolve_result, ResolvedLaunchTarget, SearchStrategy, ServiceDescriptor,
    TargetView,
};
use crate::error::{Failure, LocateError, LocateFailure, SupervisorError};
use crate::health::{timeout_text, timeout_warning, Readiness};
use crate::host::HostContext;
use crate::launch::{LaunchKind, LaunchPlan, LaunchPlanView, Service};
use crate::locator::{containing_dir, containing_dir_of, reported};
use crate::path::PathView;
use crate::server;
use crate::server::ServerHandle;
use crate::slot::{RunningInstance, ServiceSlot, SlotState};
use crate::text::{concat2, copy_strings, decimal, decimal_string, texts};
use crate::tunnel;
use crate::tunnel::{has_no_url, is_first_url, tunnel_plan, url_after, TunnelHandle};
use vstd::prelude::*;
use vstd::string::*;

verus! {

/// What the backend reports of itself.
#[derive(Clone, Copy, PartialEq, Eq, Structural, Debug)]
pub struct ServerStatus {
    pub running: bool,
    pub port: u16,
}

/// The state of the backend service: its slot, its description, and its
/// launch target once that has been resolved.
#[derive(Debug)]
pub struct ServerState<H> {
    pub slot: ServiceSlot<ServerHandle<H>>,
    pub descriptor: ServiceDescriptor,
    pub target: Option<ResolvedLaunchTarget>,
}

/// The launch of a resolved target on `port`. A bundled service is told its
/// port in the variable `PORT`; one run from its sources is not.
pub open spec fn target_plan(target: TargetView, port: u16) -> LaunchPlanView {
    LaunchPlanView {
        kind: match target.layout {
            SearchStrategy::ProductionRelative => LaunchKind::ProductionServer,
            SearchStrategy::DevelopmentRelative => LaunchKind::DevServer,
        },
        program: target.executable_path,
        args: target.args,
        env: match target.layout {
            SearchStrategy::ProductionRelative => seq![("PORT"@, decimal(port as nat))],
            SearchStrategy::DevelopmentRelative => Seq::empty(),
        },
        working_dir: target.working_directory,
        capture_output: false,
        kill_on_drop: false,
    }
}

/// The directory of the executable as the host knows it.
pub open spec fn known_exe_dir(current_exe: Result<PathView, Seq<char>>) -> Result<
    PathView,
    Seq<char>,
> {
    match current_exe {
        Ok(exe) => Ok(containing_dir(exe)),
        Err(reason) => Err(reason),
    }
}

/// What resolving `d` on a host comes to: the bundled layout is sought from
/// the executable's directory, the source tree from the working directory,
/// and a directory that the host does not know leaves its layout out.
pub open spec fn host_resolution(
    d: crate::descriptor::DescriptorView,
    current_exe: Result<PathView, Seq<char>>,
    current_dir: Result<PathView, Seq<char>>,
    separator: Seq<char>,
    disk: Set<PathView>,
) -> Result<TargetView, LocateFailure> {
    resolution(d, known_exe_dir(current_exe), current_dir, separator, disk)
}

/// The target that a state has resolved, if any.
pub open spec fn known_target(target: Option<ResolvedLaunchTarget>) -> Option<TargetView> {
    match target {
        Some(t) => Some(t@),
        None => None,
    }
}

/// The confirmation of a start on `port`.
pub open spec fn started_message(port: u16) -> Seq<char> {
    "Server started on port "@ + decimal(port as nat)
}

/// Plans the launch of a resolved target on `port`.
pub fn launch(target: &ResolvedLaunchTarget, port: u16) -> (plan: LaunchPlan)
    ensures
        plan@ == target_plan(target@, port),
{
    let args = copy_strings(&target.args);
    assert(texts(args@) =~= target@.args);
    let mut env: Vec<(String, String)> = Vec::new();
    let kind = match target.layout {
        SearchStrategy::ProductionRelative => {
            env.push(("PORT".to_owned(), decimal_string(port)));
            LaunchKind::ProductionServer
        },
        SearchStrategy::DevelopmentRelative => LaunchKind::DevServer,
    };
    let working_dir = match &target.working_directory {
        Some(dir) => Some(dir.clone()),
        None => None,
    };
    let plan = LaunchPlan {
        kind,
        program: target.executable_path.clone(),
        args,
        env,
        working_dir,
        capture_output: false,
        kill_on_drop: false,
    };
    assert(plan@.env =~= target_plan(target@, port).env);
    plan
}

/// Resolves the launch target of `descriptor` on `host`.
pub fn resolve_on_host(descriptor: &ServiceDescriptor, host: &HostContext) -> (r: Result<
    ResolvedLaunchTarget,
    LocateError,
>)
    ensures
        resolve_result(r) == host_resolution(
            descriptor@,
            reported(host.current_exe),
            reported(host.current_dir),
            host.separator@,
            host.disk@,
        ),
{
    let exe_dir = match &host.current_exe {
        Ok(exe) => Ok(containing_dir_of(exe)),
        Err(reason) => Err(reason.clone()),
    };
    descriptor.resolve(&exe_dir, &host.current_dir, host.separator.as_str(), &host.disk)
}

impl<H> ServerState<H> {
    /// The state of a backend that is not running and whose launch target
    /// has not been resolved yet.
    pub fn new(descriptor: ServiceDescriptor) -> (state: Self)
        ensures
            state.slot == ServiceSlot::<ServerHandle<H>>::new_slot(Service::Backend),
            state.descriptor == descriptor,
            state.target is None,
    {
        ServerState { slot: ServiceSlot::new(Service::Backend), descriptor, target: None }
    }
}

/// The target that a start uses: the one resolved before, else what
/// resolving on the host comes to.
pub open spec fn start_target<H>(state: ServerState<H>, host: HostContext) -> Result<
    TargetView,
    LocateFailure,
> {
    match state.target {
        Some(target) => Ok(target@),
        None => host_resolution(
            state.descriptor@,
            reported(host.current_exe),
            reported(host.current_dir),
            host.separator@,
            host.disk@,
        ),
    }
}

/// What the backend reports in `state`: whether an instance runs, and its
/// port, or the default port where none runs.
pub open spec fn server_status<H>(state: ServerState<H>) -> ServerStatus {
    match state.slot.state {
        SlotState::Running(instance) => ServerStatus { running: true, port: instance.handle.port },
        _ => ServerStatus { running: false, port: state.descriptor.default_port },
    }
}

/// Asks to start the backend on `port`. A slot that is not free refuses with
/// `AlreadyRunning` and nothing changes. Else the launch target is resolved,
/// unless it was before; where that fails, the failure is returned and
/// nothing changes; where it succeeds, the target is kept, the slot is
/// `Starting`, and the plan of the process to create is returned.
pub fn start_server<H>(state: &mut ServerState<H>, port: u16, host: &HostContext) -> (r: Result<
    LaunchPlan,
    SupervisorError,
>)
    ensures
        final(state).descriptor == old(state).descriptor,
        !old(state).slot.is_stopped() ==> {
            &&& r matches Err(e) && e@ == Failure::AlreadyRunning(Service::Backend)
            &&& *final(state) == *old(state)
        },
        old(state).slot.is_stopped() ==> match start_target(*old(state), *host) {
            Ok(target) => {
                &&& r matches Ok(plan) && plan@ == target_plan(target, port)
                &&& final(state).slot == old(state).slot.start_begun()
                &&& known_target(final(state).target) == Some(target)
            },
            Err(failure) => {
                &&& r matches Err(e) && e@ == Failure::Locate(failure)
                &&& *final(state) == *old(state)
            },
        },
{
    if let Err(_) = state.slot.begin_start() {
        return Err(SupervisorError::AlreadyRunning(Service::Backend));
    }
    if let Some(target) = &state.target {
        return Ok(launch(target, port));
    }
    match resolve_on_host(&state.descriptor, host) {
        Ok(target) => {
            let plan = launch(&target, port);
            state.target = Some(target);
            Ok(plan)
        },
        Err(e) => {
            state.slot.abort_start();
            Err(SupervisorError::Locate(e))
        },
    }
}

/// Takes up what the host's attempt to create the planned process came to.
/// A process that was created is recorded in the slot, which is then
/// `Running`, and the start is confirmed; where the slot was not `Starting`,
/// it stays as it was and the process comes back as the second result, for
/// the host to end. A process that could not be created frees the slot, and
/// the failure is returned with the system's reason and the command.
pub fn finish_start_server<H>(
    state: &mut ServerState<H>,
    plan: &LaunchPlan,
    port: u16,
    outcome: Result<H, String>,
    started_at: u64,
) -> (r: (Result<String, SupervisorError>, Option<H>))
    ensures
        final(state).descriptor == old(state).descriptor,
        final(state).target == old(state).target,
        match outcome {
            Ok(child) => if old(state).slot.state is Starting {
                &&& final(state).slot == old(state).slot.start_completed(
                    ServerHandle { child, port },
                    started_at,
                )
                &&& r.0 matches Ok(message) && message@ == started_message(port)
                &&& r.1 is None
            } else {
                &&& final(state).slot == old(state).slot
                &&& r.0 matches Err(e) && e@ == Failure::NotStarting(Service::Backend)
                &&& r.1 == Some(child)
            },
            Err(reason) => {
                &&& final(state).slot == old(state).slot.start_aborted()
                &&& r.0 matches Err(e) && e@ == (Failure::Spawn {
                    kind: plan.kind,
                    reason: reason@,
                    program: plan@.program,
                    args: plan@.args,
                })
                &&& r.1 is None
            },
        },
{
    match server::started(plan, port, outcome) {
        Ok(handle) => match state.slot.complete_start(handle, started_at) {
            Ok(_) => (Ok(concat2("Server started on port ", decimal_string(port).as_str())), None),
            Err(handle) => (
                Err(SupervisorError::NotStarting(Service::Backend)),
                Some(handle.child),
            ),
        },
        Err(e) => {
            state.slot.abort_start();
            (Err(e), None)
        },
    }
}

/// Asks to stop the backend. A slot that holds no instance refuses with
/// `NotRunning` and nothing changes. Else the instance is handed out, for
/// the host to end its process, and the slot is `Stopping`.
pub fn stop_server<H>(state: &mut ServerState<H>) -> (r: Result<
    RunningInstance<ServerHandle<H>>,
    SupervisorError,
>)
    ensures
        final(state).descriptor == old(state).descriptor,
        final(state).target == old(state).target,
        final(state).slot == old(state).slot.stop_begun(),
        r is Ok <==> old(state).slot.is_running(),
        r matches Ok(instance) ==> old(state).slot.state == SlotState::Running(instance),
        r matches Err(e) ==> e@ == Failure::NotRunning(Service::Backend) && *final(state)
            == *old(state),
{
    match state.slot.begin_stop() {
        Ok(instance) => Ok(instance),
        Err(_) => Err(SupervisorError::NotRunning(Service::Backend)),
    }
}

/// Takes up what the host's attempt to end the process came to. The slot is
/// free again whether or not the system let the process be ended; a refusal
/// is returned with the system's reason.
pub fn finish_stop_server<H>(state: &mut ServerState<H>, outcome: Result<(), String>) -> (r: Result<
    String,
    SupervisorError,
>)
    ensures
        final(state).descriptor == old(state).descriptor,
        final(state).target == old(state).target,
        final(state).slot == old(state).slot.stop_completed(),
        match outcome {
            Ok(_) => r matches Ok(message) && message@ == "Server stopped"@,
            Err(reason) => r matches Err(e) && e@ == (Failure::Stop {
                service: Service::Backend,
                reason: reason@,
            }),
        },
{
    state.slot.complete_stop();
    match server::stop(outcome) {
        Ok(_) => Ok("Server stopped".to_owned()),
        Err(e) => Err(e),
    }
}

/// Records that the process of instance `id` of the backend ended by itself.
/// If the slot still holds that instance, it is handed out and the slot is
/// free; a report about any other instance changes nothing.
pub fn server_exited<H>(state: &mut ServerState<H>, id: u64) -> (r: Option<
    RunningInstance<ServerHandle<H>>,
>)
    ensures
        final(state).descriptor == old(state).descriptor,
        final(state).target == old(state).target,
        final(state).slot == old(state).slot.exit_noted(id),
        r is Some <==> old(state).slot.holds(id),
        r matches Some(instance) ==> old(state).slot.state == SlotState::Running(instance),
{
    state.slot.note_exit(id)
}

/// Takes up the verdict of the health check that was begun for instance
/// `id` of the backend. A verdict about an instance that the slot no longer
/// holds is dropped. A timeout of the instance that runs is a warning for
/// the host to show; the slot is not touched either way.
pub fn readiness_report<H>(state: &ServerState<H>, id: u64, readiness: Readiness) -> (r: Option<
    String,
>)
    ensures
        match state.slot.state {
            SlotState::Running(instance) => if instance.id == id && readiness
                == Readiness::TimedOut {
                r matches Some(warning) && warning@ == timeout_text(instance.handle.port)
            } else {
                r is None
            },
            _ => r is None,
        },
{
    match state.slot.instance() {
        Some(instance) => {
            if instance.id == id && readiness == Readiness::TimedOut {
                Some(timeout_warning(instance.handle.port))
            } else {
                None
            }
        },
        None => None,
    }
}

/// What the backend reports of itself.
pub fn get_server_status<H>(state: &ServerState<H>) -> (r: ServerStatus)
    ensures
        r == server_status(*state),
{
    match state.slot.instance() {
        Some(instance) => ServerStatus { running: true, port: instance.handle.port },
        None => ServerStatus { running: false, port: state.descriptor.default_port },
    }
}

/// The lines that the backend has logged. Nothing is collected: the one line
/// returned says so.
pub fn get_server_logs() -> (lines: Vec<String>)
    ensures
        lines.len() == 1,
        lines[0]@ == "Server logging not yet implemented"@,
{
    let mut lines: Vec<String> = Vec::new();
    lines.push("Server logging not yet implemented".to_owned());
    lines
}

/// What the tunnel reports of itself.
#[derive(PartialEq, Eq, Debug)]
pub struct TunnelStatus {
    pub running: bool,
    pub url: Option<String>,
}

/// The state of the tunnel service.
#[derive(Debug)]
pub struct TunnelState<H> {
    pub slot: ServiceSlot<TunnelHandle<H>>,
}

/// Whether `url` is what a tunnel knows of its URL after it has printed
/// `lines`: the first URL of the first line that holds one.
pub open spec fn first_url_among(lines: Seq<Seq<char>>, url: Option<String>) -> bool {
    match url {
        Some(u) => exists|i: int|
            {
                &&& 0 <= i < lines.len()
                &&& is_first_url(lines[i], u@)
                &&& forall|j: int| 0 <= j < i ==> has_no_url(lines[j])
            },
        None => forall|i: int| 0 <= i < lines.len() ==> has_no_url(lines[i]),
    }
}

/// What the tunnel reports in `state`: whether an instance runs, and its
/// URL if that has been seen.
pub open spec fn tunnel_url<H>(state: TunnelState<H>) -> Option<String> {
    match state.slot.state {
        SlotState::Running(instance) => instance.handle.url,
        _ => None,
    }
}

impl<H> TunnelState<H> {
    /// The state of a tunnel that is not running.
    pub fn new() -> (state: Self)
        ensures
            state.slot == ServiceSlot::<TunnelHandle<H>>::new_slot(Service::Tunnel),
    {
        TunnelState { slot: ServiceSlot::new(Service::Tunnel) }
    }
}

/// Asks to start the tunnel for the local port `port`. A slot that is not
/// free refuses with `AlreadyRunning` and nothing changes. Else the slot is
/// `Starting` and the plan of the process to create is returned.
pub fn start_tunnel<H>(state: &mut TunnelState<H>, port: u16) -> (r: Result<
    LaunchPlan,
    SupervisorError,
>)
    ensures
        final(state).slot == old(state).slot.start_begun(),
        r is Ok <==> old(state).slot.is_stopped(),
        r matches Ok(plan) ==> plan@ == tunnel_plan(port),
        r matches Err(e) ==> e@ == Failure::AlreadyRunning(Service::Tunnel),
{
    match state.slot.begin_start() {
        Ok(_) => Ok(tunnel::start(port)),
        Err(_) => Err(SupervisorError::AlreadyRunning(Service::Tunnel)),
    }
}

/// Takes up what the host's attempt to create the tunnel's process came to,
/// together with the lines that the process has printed so far. A process
/// that was created is recorded in the slot, which is then `Running`, with
/// the first URL among those lines; the result is that URL, or
/// `UrlUnavailable` where no line held one yet: the tunnel runs all the
/// same. Where the slot was not `Starting`, it stays as it was and the
/// process comes back as the second result, for the host to end. A process
/// that could not be created frees the slot, and the failure is returned
/// with the system's reason and the command.
pub fn finish_start_tunnel<H>(
    state: &mut TunnelState<H>,
    plan: &LaunchPlan,
    outcome: Result<H, String>,
    started_at: u64,
    observed: &Vec<String>,
) -> (r: (Result<String, SupervisorError>, Option<H>))
    ensures
        match outcome {
            Ok(child) => if old(state).slot.state is Starting {
                &&& final(state).slot.state matches SlotState::Running(instance)
                &&& instance.handle.child == child
                &&& first_url_among(texts(observed@), instance.handle.url)
                &&& final(state).slot == old(state).slot.start_completed(
                    instance.handle,
                    started_at,
                )
                &&& match instance.handle.url {
                    Some(url) => r.0 == Ok::<String, SupervisorError>(url),
                    None => r.0 matches Err(e) && e@ == Failure::UrlUnavailable,
                }
                &&& r.1 is None
            } else {
                &&& final(state).slot == old(state).slot
                &&& r.0 matches Err(e) && e@ == Failure::NotStarting(Service::Tunnel)
                &&& r.1 == Some(child)
            },
            Err(reason) => {
                &&& final(state).slot == old(state).slot.start_aborted()
                &&& r.0 matches Err(e) && e@ == (Failure::Spawn {
                    kind: plan.kind,
                    reason: reason@,
                    program: plan@.program,
                    args: plan@.args,
                })
                &&& r.1 is None
            },
        },
{
    let mut handle = match tunnel::started(plan, outcome) {
        Ok(handle) => handle,
        Err(e) => {
            state.slot.abort_start();
            return (Err(e), None);
        },
    };
    let ghost child = handle.child;
    let mut i: usize = 0;
    while i < observed.len()
        invariant
            i <= observed.len(),
            handle.child == child,
            first_url_among(texts(observed@).take(i as int), handle.url),
        decreases observed.len() - i,
    {
        let ghost before = handle.url;
        handle.observe_line(observed[i].as_str());
        let ghost after = handle.url;
        proof {
            let seen = texts(observed@).take(i as int);
            let now = texts(observed@).take(i + 1);
            assert(now[i as int] == observed[i as int]@);
            assert forall|j: int| 0 <= j < i implies now[j] == seen[j] by {}
            match before {
                Some(url) => {
                    let k = choose|k: int|
                        {
                            &&& 0 <= k < seen.len()
                            &&& is_first_url(seen[k], url@)
                            &&& forall|j: int| 0 <= j < k ==> has_no_url(seen[j])
                        };
                    assert(is_first_url(now[k], url@));
                    assert forall|j: int| 0 <= j < k implies has_no_url(now[j]) by {
                        assert(has_no_url(seen[j]));
                    }
                },
                None => {
                    assert forall|j: int| 0 <= j < i implies has_no_url(now[j]) by {
                        assert(has_no_url(seen[j]));
                    }
                    if after is Some {
                        assert(is_first_url(now[i as int], after->0@));
                    }
                },
            }
        }
        i += 1;
    }
    assert(texts(observed@).take(i as int) =~= texts(observed@));
    let url = tunnel::get_url(&handle);
    match state.slot.complete_start(handle, started_at) {
        Ok(_) => match url {
            Some(url) => (Ok(url), None),
            None => (Err(SupervisorError::UrlUnavailable), None),
        },
        Err(handle) => (Err(SupervisorError::NotStarting(Service::Tunnel)), Some(handle.child)),
    }
}

/// Asks to stop the tunnel. A slot that holds no instance refuses with
/// `NotRunning` and nothing changes. Else the instance is handed out, for
/// the host to end its process, and the slot is `Stopping`.
pub fn stop_tunnel<H>(state: &mut TunnelState<H>) -> (r: Result<
    RunningInstance<TunnelHandle<H>>,
    SupervisorError,
>)
    ensures
        final(state).slot == old(state).slot.stop_begun(),
        r is Ok <==> old(state).slot.is_running(),
        r matches Ok(instance) ==> old(state).slot.state == SlotState::Running(instance),
        r matches Err(e) ==> e@ == Failure::NotRunning(Service::Tunnel) && *final(state)
            == *old(state),
{
    match state.slot.begin_stop() {
        Ok(instance) => Ok(instance),
        Err(_) => Err(SupervisorError::NotRunning(Service::Tunnel)),
    }
}

/// Takes up what the host's attempt to end the tunnel's process came to. The
/// slot is free again whether or not the system let the process be ended; a
/// refusal is returned with the system's reason.
pub fn finish_stop_tunnel<H>(state: &mut TunnelState<H>, outcome: Result<(), String>) -> (r: Result<
    String,
    SupervisorError,
>)
    ensures
        final(state).slot == old(state).slot.stop_completed(),
        match outcome {
            Ok(_) => r matches Ok(message) && message@ == "Tunnel stopped"@,
            Err(reason) => r matches Err(e) && e@ == (Failure::Stop {
                service: Service::Tunnel,
                reason: reason@,
            }),
        },
{
    state.slot.complete_stop();
    match tunnel::stop(outcome) {
        Ok(_) => Ok("Tunnel stopped".to_owned()),
        Err(e) => Err(e),
    }
}

/// Records that the process of instance `id` of the tunnel ended by itself.
/// If the slot still holds that instance, it is handed out and the slot is
/// free; a report about any other instance changes nothing.
pub fn tunnel_exited<H>(state: &mut TunnelState<H>, id: u64) -> (r: Option<
    RunningInstance<TunnelHandle<H>>,
>)
    ensures
        final(state).slot == old(state).slot.exit_noted(id),
        r is Some <==> old(state).slot.holds(id),
        r matches Some(instance) ==> old(state).slot.state == SlotState::Running(instance),
{
    state.slot.note_exit(id)
}

/// What the tunnel reports of itself. A tunnel whose URL has not been seen
/// yet reports none: that is no error.
pub fn get_tunnel_status<H>(state: &TunnelState<H>) -> (r: TunnelStatus)
    ensures
        r.running == state.slot.is_running(),
        r.url == tunnel_url(*state),
{
    match state.slot.instance() {
        Some(instance) => TunnelStatus { running: true, url: tunnel::get_url(&instance.handle) },
        None => TunnelStatus { running: false, url: None },
    }
}

/// Takes up one line that the process of instance `id` of the tunnel has
/// printed. If the slot still holds that instance and its URL is not known
/// yet, the first URL in the line is kept; a line from any other instance
/// changes nothing. Returns whether this line gave the URL.
pub fn tunnel_output<H>(state: &mut TunnelState<H>, id: u64, line: &str) -> (learned: bool)
    ensures
        final(state).slot.service == old(state).slot.service,
        final(state).slot.next_id == old(state).slot.next_id,
        match old(state).slot.state {
            SlotState::Running(before) => if before.id == id {
                &&& final(state).slot.state matches SlotState::Running(instance)
                &&& instance.id == before.id
                &&& instance.started_at == before.started_at
                &&& instance.handle.child == before.handle.child
                &&& url_after(before.handle.url, line@, instance.handle.url)
                &&& learned == (before.handle.url is None && instance.handle.url is Some)
            } else {
                final(state).slot.state == old(state).slot.state && !learned
            },
            _ => final(state).slot.state == old(state).slot.state && !learned,
        },
{
    match &mut state.slot.state {
        SlotState::Running(instance) => {
            if instance.id == id {
                instance.handle.observe_line(line)
            } else {
                false
            }
        },
        _ => false,
    }
}

} // verus!
