//! What the host is asked to run.

use crate::path::{FsPath, PathView};
use crate::text::texts;
use vstd::prelude::*;

verus! {

/// The services that the supervisor manages.
#[derive(Clone, Copy, PartialEq, Eq, Structural, Debug)]
pub enum Service {
    /// The local backend server.
    Backend,
    /// The tunnel that exposes the backend on a public URL.
    Tunnel,
}

/// Which launch a plan describes.
#[derive(Clone, Copy, PartialEq, Eq, Structural, Debug)]
pub enum LaunchKind {
    /// The backend from its source tree, through the package manager.
    DevServer,
    /// The bundled backend script, through the script runtime.
    ProductionServer,
    /// The tunnel.
    Tunnel,
    /// The backend that the host brings up by itself when its window opens.
    AutoStart,
    /// The command that probes the backend's liveness endpoint.
    HealthProbe,
}

/// What a launch plan is.
pub struct LaunchPlanView {
    pub kind: LaunchKind,
    pub program: Seq<char>,
    pub args: Seq<Seq<char>>,
    pub env: Seq<(Seq<char>, Seq<char>)>,
    pub working_dir: Option<PathView>,
    pub capture_output: bool,
    pub kill_on_drop: bool,
}

/// The process that the host is to create: the program, its arguments, the
/// environment variables to add, the directory to run it in, whether its
/// output streams are piped back, and whether it dies with its handle.
#[derive(Debug, PartialEq, Eq)]
pub struct LaunchPlan {
    pub kind: LaunchKind,
    pub program: String,
    pub args: Vec<String>,
    pub env: Vec<(String, String)>,
    pub working_dir: Option<FsPath>,
    pub capture_output: bool,
    pub kill_on_drop: bool,
}

/// The texts of a sequence of name and value pairs.
pub open spec fn pair_texts(pairs: Seq<(String, String)>) -> Seq<(Seq<char>, Seq<char>)> {
    pairs.map_values(|p: (String, String)| (p.0@, p.1@))
}

impl View for LaunchPlan {
    type V = LaunchPlanView;

    open spec fn view(&self) -> LaunchPlanView {
        LaunchPlanView {
            kind: self.kind,
            program: self.program@,
            args: texts(self.args@),
            env: pair_texts(self.env@),
            working_dir: match self.working_dir {
                Some(dir) => Some(dir@),
                None => None,
            },
            capture_output: self.capture_output,
            kill_on_drop: self.kill_on_drop,
        }
    }
}

} // verus!
