//! What can go wrong, and the message that the host shows for it.

use crate::launch::{LaunchKind, Service};
use crate::text::{concat2, concat3, join_names, join_strings, texts};
use vstd::prelude::*;
use vstd::string::*;

verus! {

/// What a failed search is.
pub enum LocateFailure {
    CurrentDirUnavailable(Seq<char>),
    ExecutableUnavailable(Seq<char>),
    ProjectRootNotFound { working_dir: Seq<char>, exe_dir: Seq<char> },
    ServerDirectoryNotFound { exe_dir: Seq<char> },
    NodeNotFound,
    ScriptNotFound(Seq<char>),
    NotFound { production: Seq<char>, development: Seq<char> },
}

impl LocateFailure {
    /// The message for this failure.
    pub open spec fn text(self) -> Seq<char> {
        match self {
            LocateFailure::CurrentDirUnavailable(reason) => "Failed to get current dir: "@ + reason,
            LocateFailure::ExecutableUnavailable(reason) => "Failed to get exe path: "@ + reason,
            LocateFailure::ProjectRootNotFound { working_dir, exe_dir } =>
                "Could not find project root (package.json) at or above "@ + working_dir + " or "@
                    + exe_dir,
            LocateFailure::ServerDirectoryNotFound { exe_dir } =>
                "Could not find server directory at or above "@ + exe_dir
                    + ". Please run from the project root."@,
            LocateFailure::NodeNotFound =>
                "Node.js not found in PATH. Please install Node.js to run the backend server."@,
            LocateFailure::ScriptNotFound(path) => "Server executable not found at: "@ + path
                + ". Ensure resources are bundled correctly."@,
            LocateFailure::NotFound { production, development } =>
                "Launch target not found: no bundled service at "@ + production
                    + " and no project manifest at or above "@ + development,
        }
    }
}

/// A launch target could not be found.
#[derive(Debug, PartialEq, Eq)]
pub enum LocateError {
    /// The host could not tell its working directory; holds the system's
    /// reason.
    CurrentDirUnavailable(String),
    /// The host could not tell where its executable is; holds the system's
    /// reason.
    ExecutableUnavailable(String),
    /// No project manifest at or above the directories searched; holds the
    /// working directory and the executable's directory, from which the two
    /// walks started.
    ProjectRootNotFound { working_dir: String, exe_dir: String },
    /// No server source tree at or above the executable; holds the
    /// executable's directory, from which the walk started.
    ServerDirectoryNotFound { exe_dir: String },
    /// No script runtime on the search path.
    NodeNotFound,
    /// The bundled server script is not where it should be; holds that place.
    ScriptNotFound(String),
    /// Neither layout holds the service; holds the bundled place that was
    /// tried and the directory from which the source tree was sought.
    NotFound { production: String, development: String },
}

impl View for LocateError {
    type V = LocateFailure;

    open spec fn view(&self) -> LocateFailure {
        match self {
            LocateError::CurrentDirUnavailable(reason) => LocateFailure::CurrentDirUnavailable(
                reason@,
            ),
            LocateError::ExecutableUnavailable(reason) => LocateFailure::ExecutableUnavailable(
                reason@,
            ),
            LocateError::ProjectRootNotFound { working_dir, exe_dir } =>
                LocateFailure::ProjectRootNotFound { working_dir: working_dir@, exe_dir: exe_dir@ },
            LocateError::ServerDirectoryNotFound { exe_dir } =>
                LocateFailure::ServerDirectoryNotFound { exe_dir: exe_dir@ },
            LocateError::NodeNotFound => LocateFailure::NodeNotFound,
            LocateError::ScriptNotFound(path) => LocateFailure::ScriptNotFound(path@),
            LocateError::NotFound { production, development } => LocateFailure::NotFound {
                production: production@,
                development: development@,
            },
        }
    }
}

impl LocateError {
    /// The message for this error.
    pub fn message(&self) -> (r: String)
        ensures
            r@ == self@.text(),
    {
        match self {
            LocateError::CurrentDirUnavailable(reason) => concat2(
                "Failed to get current dir: ",
                reason.as_str(),
            ),
            LocateError::ExecutableUnavailable(reason) => concat2(
                "Failed to get exe path: ",
                reason.as_str(),
            ),
            LocateError::ProjectRootNotFound { working_dir, exe_dir } => {
                let mut r = concat3(
                    "Could not find project root (package.json) at or above ",
                    working_dir.as_str(),
                    " or ",
                );
                r.append(exe_dir.as_str());
                r
            },
            LocateError::ServerDirectoryNotFound { exe_dir } => concat3(
                "Could not find server directory at or above ",
                exe_dir.as_str(),
                ". Please run from the project root.",
            ),
            LocateError::NodeNotFound =>
                "Node.js not found in PATH. Please install Node.js to run the backend server.".to_owned(),
            LocateError::ScriptNotFound(path) => concat3(
                "Server executable not found at: ",
                path.as_str(),
                ". Ensure resources are bundled correctly.",
            ),
            LocateError::NotFound { production, development } => {
                let mut r = concat3(
                    "Launch target not found: no bundled service at ",
                    production.as_str(),
                    " and no project manifest at or above ",
                );
                r.append(development.as_str());
                r
            },
        }
    }
}

/// The first of `args`, or the empty text where there is none.
pub open spec fn first_or_empty(args: Seq<Seq<char>>) -> Seq<char> {
    if args.len() > 0 {
        args[0]
    } else {
        Seq::empty()
    }
}

/// The program `program` and its arguments `args` as one line, with one
/// space between them.
pub open spec fn command_line(program: Seq<char>, args: Seq<Seq<char>>) -> Seq<char> {
    join_names(seq![program] + args, " "@)
}

/// What a failed operation is.
pub enum Failure {
    AlreadyRunning(Service),
    NotRunning(Service),
    NotStarting(Service),
    Locate(LocateFailure),
    ProjectRoot(LocateFailure),
    Spawn { kind: LaunchKind, reason: Seq<char>, program: Seq<char>, args: Seq<Seq<char>> },
    Stop { service: Service, reason: Seq<char> },
    UrlUnavailable,
    MainWindowMissing,
}

impl Failure {
    /// The message for this failure.
    pub open spec fn text(self) -> Seq<char> {
        match self {
            Failure::AlreadyRunning(Service::Backend) => "Server is already running"@,
            Failure::AlreadyRunning(Service::Tunnel) => "Tunnel is already running"@,
            Failure::NotRunning(Service::Backend) => "Server is not running"@,
            Failure::NotRunning(Service::Tunnel) => "Tunnel is not running"@,
            Failure::NotStarting(Service::Backend) => "Server was not being started"@,
            Failure::NotStarting(Service::Tunnel) => "Tunnel was not being started"@,
            Failure::Locate(failure) => failure.text(),
            Failure::ProjectRoot(failure) => "Failed to find project root: "@ + failure.text(),
            Failure::Spawn { kind: LaunchKind::DevServer, reason, program, args } =>
                "Failed to start dev server: "@ + reason + ". Ensure npm is in PATH"@,
            Failure::Spawn { kind: LaunchKind::ProductionServer, reason, program, args } =>
                "Failed to start server: "@ + reason + " (node: '"@ + program + "', script: '"@
                    + first_or_empty(args) + "')"@,
            Failure::Spawn { kind: LaunchKind::Tunnel, reason, program, args } =>
                "Failed to start tunnel: "@ + reason + ". Ensure Node.js/npm is in PATH"@,
            Failure::Spawn { kind: LaunchKind::AutoStart, reason, program, args } =>
                "Failed to start server: "@ + reason,
            Failure::Spawn { kind: LaunchKind::HealthProbe, reason, program, args } =>
                "Server did not respond to health check"@,
            Failure::Stop { service: Service::Backend, reason } => "Failed to stop server: "@
                + reason,
            Failure::Stop { service: Service::Tunnel, reason } => "Failed to stop tunnel: "@
                + reason,
            Failure::UrlUnavailable => "Tunnel started but URL not available"@,
            Failure::MainWindowMissing => "Main window not found"@,
        }
    }
}

/// An operation of the supervisor failed.
#[derive(Debug, PartialEq, Eq)]
pub enum SupervisorError {
    /// A start was asked of a service whose slot is taken.
    AlreadyRunning(Service),
    /// A stop was asked of a service whose slot is empty.
    NotRunning(Service),
    /// A process was handed over for a service of which no start had been
    /// admitted.
    NotStarting(Service),
    /// The launch target could not be found.
    Locate(LocateError),
    /// The project root, from which the source tree is run, could not be
    /// found.
    ProjectRoot(LocateError),
    /// The system refused to create the process; holds its reason and the
    /// command that was attempted.
    Spawn { kind: LaunchKind, reason: String, program: String, args: Vec<String> },
    /// The system refused to end the process; holds its reason.
    Stop { service: Service, reason: String },
    /// The tunnel runs, but its public URL has not been seen yet.
    UrlUnavailable,
    /// The host has no main window.
    MainWindowMissing,
}

impl View for SupervisorError {
    type V = Failure;

    open spec fn view(&self) -> Failure {
        match self {
            SupervisorError::AlreadyRunning(service) => Failure::AlreadyRunning(*service),
            SupervisorError::NotRunning(service) => Failure::NotRunning(*service),
            SupervisorError::NotStarting(service) => Failure::NotStarting(*service),
            SupervisorError::Locate(e) => Failure::Locate(e@),
            SupervisorError::ProjectRoot(e) => Failure::ProjectRoot(e@),
            SupervisorError::Spawn { kind, reason, program, args } => Failure::Spawn {
                kind: *kind,
                reason: reason@,
                program: program@,
                args: texts(args@),
            },
            SupervisorError::Stop { service, reason } => Failure::Stop {
                service: *service,
                reason: reason@,
            },
            SupervisorError::UrlUnavailable => Failure::UrlUnavailable,
            SupervisorError::MainWindowMissing => Failure::MainWindowMissing,
        }
    }
}

impl SupervisorError {
    /// The command that the system refused to run, as one line: the program
    /// and its arguments with one space between them. `None` for an error
    /// that is about no command.
    pub fn attempted_command(&self) -> (r: Option<String>)
        ensures
            match self@ {
                Failure::Spawn { kind, reason, program, args } => r matches Some(line) && line@
                    == command_line(program, args),
                _ => r is None,
            },
    {
        match self {
            SupervisorError::Spawn { kind, reason, program, args } => {
                let mut words: Vec<String> = Vec::new();
                words.push(program.clone());
                let mut i: usize = 0;
                while i < args.len()
                    invariant
                        i <= args.len(),
                        words.len() == i + 1,
                        words[0]@ == program@,
                        forall|j: int| 0 <= j < i ==> words[j + 1]@ == args[j]@,
                    decreases args.len() - i,
                {
                    words.push(args[i].clone());
                    i += 1;
                }
                assert(texts(words@) =~= seq![program@] + texts(args@));
                Some(join_strings(&words, " "))
            },
            _ => None,
        }
    }

    /// The message for this error.
    pub fn message(&self) -> (r: String)
        ensures
            r@ == self@.text(),
    {
        match self {
            SupervisorError::AlreadyRunning(service) => match service {
                Service::Backend => "Server is already running".to_owned(),
                Service::Tunnel => "Tunnel is already running".to_owned(),
            },
            SupervisorError::NotRunning(service) => match service {
                Service::Backend => "Server is not running".to_owned(),
                Service::Tunnel => "Tunnel is not running".to_owned(),
            },
            SupervisorError::NotStarting(service) => match service {
                Service::Backend => "Server was not being started".to_owned(),
                Service::Tunnel => "Tunnel was not being started".to_owned(),
            },
            SupervisorError::Locate(e) => e.message(),
            SupervisorError::ProjectRoot(e) => concat2(
                "Failed to find project root: ",
                e.message().as_str(),
            ),
            SupervisorError::Spawn { kind, reason, program, args } => match kind {
                LaunchKind::DevServer => concat3(
                    "Failed to start dev server: ",
                    reason.as_str(),
                    ". Ensure npm is in PATH",
                ),
                LaunchKind::ProductionServer => {
                    let mut r = concat3("Failed to start server: ", reason.as_str(), " (node: '");
                    r.append(program.as_str());
                    r.append("', script: '");
                    if args.len() > 0 {
                        r.append(args[0].as_str());
                    } else {
                        assert(r@ + Seq::<char>::empty() =~= r@);
                    }
                    r.append("')");
                    r
                },
                LaunchKind::Tunnel => concat3(
                    "Failed to start tunnel: ",
                    reason.as_str(),
                    ". Ensure Node.js/npm is in PATH",
                ),
                LaunchKind::AutoStart => concat2("Failed to start server: ", reason.as_str()),
                LaunchKind::HealthProbe => "Server did not respond to health check".to_owned(),
            },
            SupervisorError::Stop { service, reason } => match service {
                Service::Backend => concat2("Failed to stop server: ", reason.as_str()),
                Service::Tunnel => concat2("Failed to stop tunnel: ", reason.as_str()),
            },
            SupervisorError::UrlUnavailable => "Tunnel started but URL not available".to_owned(),
            SupervisorError::MainWindowMissing => "Main window not found".to_owned(),
        }
    }
}

} // verus!
