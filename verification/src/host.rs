//! What the host hands the supervisor about the machine it runs on.

use crate::disk::FsSnapshot;
use crate::path::FsPath;
use vstd::prelude::*;

verus! {

/// The environment of the host, read once and handed over as plain values.
#[derive(Debug)]
pub struct HostContext {
    /// Whether the environment variable `TAURI_DEV` is set.
    pub tauri_dev: bool,
    /// Whether the environment variable `DEBUG` is set.
    pub debug: bool,
    /// Whether the host was built with debug assertions.
    pub debug_build: bool,
    /// The path of the running executable, or the system's reason for
    /// having none.
    pub current_exe: Result<FsPath, String>,
    /// The working directory, or the system's reason for having none.
    pub current_dir: Result<FsPath, String>,
    /// The text that separates the components of a path on this system.
    pub separator: String,
    /// What the host found on disk.
    pub disk: FsSnapshot,
}

} // verus!
