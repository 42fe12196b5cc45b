//! Finding where a service's launch target lives, in the production layout
//! (bundled beside the executable) or the development layout (a source tree
//! found by walking up from a starting directory).

use crate::disk::FsSnapshot;
use crate::error::{LocateError, LocateFailure};
use crate::path::{name_has_extension, FsPath, PathView};
use vstd::prelude::*;
use vstd::string::*;

verus! {

/// How many levels the walk for a bundled server script may visit.
pub const BUNDLE_SEARCH_LEVELS: usize = 5;

/// How many levels the walk for a project root or a source tree may visit.
pub const PROJECT_SEARCH_LEVELS: usize = 10;

/// What a walk looks for in each directory it visits.
#[derive(Clone, Copy, PartialEq, Eq, Structural, Debug)]
pub enum Marker {
    /// The project manifest, `package.json`.
    ProjectManifest,
    /// A bundled server script, under `resources/server` or
    /// `src-tauri/resources/server`.
    BundledServer,
    /// The server's source tree, `apps/server` with its own manifest.
    ServerSources,
}

/// The project manifest directly in `dir`.
pub open spec fn manifest_in(dir: PathView) -> PathView {
    dir.join("package.json"@)
}

/// The server script bundled under `dir`.
pub open spec fn script_under(dir: PathView) -> PathView {
    dir.join("resources"@).join("server"@).join("index.js"@)
}

/// The host's own source directory below `dir`.
pub open spec fn host_sources_in(dir: PathView) -> PathView {
    dir.join("src-tauri"@)
}

/// The server's source directory below the project root `dir`.
pub open spec fn server_sources_in(dir: PathView) -> PathView {
    dir.join("apps"@).join("server"@)
}

/// Whether the script bundled under the host's source directory in `dir` is
/// there.
pub open spec fn has_nested_script(dir: PathView, disk: Set<PathView>) -> bool {
    disk.contains(script_under(host_sources_in(dir)))
}

/// Whether `dir` holds what `marker` stands for.
pub open spec fn marked(marker: Marker, dir: PathView, disk: Set<PathView>) -> bool {
    match marker {
        Marker::ProjectManifest => disk.contains(manifest_in(dir)),
        Marker::BundledServer => disk.contains(script_under(dir)) || has_nested_script(dir, disk),
        Marker::ServerSources => disk.contains(server_sources_in(dir)) && disk.contains(
            manifest_in(server_sources_in(dir)),
        ),
    }
}

/// The nearest directory that is marked, looking at `start`, then at its
/// parent, and so on, at no more than `levels` directories and never above
/// the anchor.
pub open spec fn nearest_marked(
    start: PathView,
    levels: nat,
    marker: Marker,
    disk: Set<PathView>,
) -> Option<PathView>
    decreases levels,
{
    if levels == 0 {
        None
    } else if marked(marker, start, disk) {
        Some(start)
    } else if !start.has_parent() {
        None
    } else {
        nearest_marked(start.parent(), (levels - 1) as nat, marker, disk)
    }
}

/// The project manifest directly in `dir`.
pub fn manifest_path(dir: &FsPath) -> (r: FsPath)
    ensures
        r@ == manifest_in(dir@),
{
    dir.join("package.json")
}

/// The server script bundled under `dir`.
pub fn script_path(dir: &FsPath) -> (r: FsPath)
    ensures
        r@ == script_under(dir@),
{
    dir.join("resources").join("server").join("index.js")
}

/// The server's source directory below the project root `dir`.
pub fn server_sources_path(dir: &FsPath) -> (r: FsPath)
    ensures
        r@ == server_sources_in(dir@),
{
    dir.join("apps").join("server")
}

fn nested_script_present(dir: &FsPath, disk: &FsSnapshot) -> (r: bool)
    ensures
        r == has_nested_script(dir@, disk@),
{
    disk.has(&script_path(&dir.join("src-tauri")))
}

/// Whether `dir` holds what `marker` stands for.
pub fn is_marked(marker: Marker, dir: &FsPath, disk: &FsSnapshot) -> (r: bool)
    ensures
        r == marked(marker, dir@, disk@),
{
    match marker {
        Marker::ProjectManifest => disk.has(&manifest_path(dir)),
        Marker::BundledServer => disk.has(&script_path(dir)) || nested_script_present(dir, disk),
        Marker::ServerSources => {
            let sources = server_sources_path(dir);
            disk.has(&sources) && disk.has(&manifest_path(&sources))
        },
    }
}

/// Walks up from `start` and returns the nearest marked directory, visiting
/// at most `levels` directories.
pub fn find_nearest_marked(start: &FsPath, levels: usize, marker: Marker, disk: &FsSnapshot) -> (r:
    Option<FsPath>)
    ensures
        r is Some <==> nearest_marked(start@, levels as nat, marker, disk@) is Some,
        r matches Some(dir) ==> Some(dir@) == nearest_marked(start@, levels as nat, marker, disk@),
{
    let mut current = start.clone();
    let mut left: usize = levels;
    while left > 0
        invariant
            nearest_marked(current@, left as nat, marker, disk@) == nearest_marked(
                start@,
                levels as nat,
                marker,
                disk@,
            ),
        decreases left,
    {
        if is_marked(marker, &current, disk) {
            return Some(current);
        }
        if !current.pop() {
            return None;
        }
        left -= 1;
    }
    None
}

/// The directory that holds `path`; `path` itself where it is its anchor.
pub open spec fn containing_dir(path: PathView) -> PathView {
    if path.has_parent() {
        path.parent()
    } else {
        path
    }
}

/// What the host reported for a path: the path, or the system's reason for
/// having none.
pub open spec fn reported(r: Result<FsPath, String>) -> Result<PathView, Seq<char>> {
    match r {
        Ok(path) => Ok(path@),
        Err(reason) => Err(reason@),
    }
}

/// What a search came to.
pub open spec fn search_result(r: Result<FsPath, LocateError>) -> Result<PathView, LocateFailure> {
    match r {
        Ok(path) => Ok(path@),
        Err(e) => Err(e@),
    }
}

/// The bundled server script: the one in the nearest directory, within
/// `BUNDLE_SEARCH_LEVELS` levels from `exe_dir` upward, that holds one (the
/// script directly below the directory before the one below the host's own
/// sources); where no directory holds one, the place directly below
/// `exe_dir`, whether or not anything is there.
pub open spec fn server_path(exe_dir: PathView, disk: Set<PathView>) -> PathView {
    match nearest_marked(exe_dir, BUNDLE_SEARCH_LEVELS as nat, Marker::BundledServer, disk) {
        Some(dir) => if disk.contains(script_under(dir)) {
            script_under(dir)
        } else {
            script_under(host_sources_in(dir))
        },
        None => script_under(exe_dir),
    }
}

/// The project root: the nearest directory with a project manifest within
/// `PROJECT_SEARCH_LEVELS` levels from the working directory upward, else
/// within `BUNDLE_SEARCH_LEVELS` levels from the executable's directory
/// upward. A missing executable path matters only once the first walk has
/// found nothing. Where neither walk finds one, the failure names the two
/// directories from which they started.
pub open spec fn project_root(
    current_dir: Result<PathView, Seq<char>>,
    current_exe: Result<PathView, Seq<char>>,
    separator: Seq<char>,
    disk: Set<PathView>,
) -> Result<PathView, LocateFailure> {
    match current_dir {
        Err(reason) => Err(LocateFailure::CurrentDirUnavailable(reason)),
        Ok(dir) => match nearest_marked(
            dir,
            PROJECT_SEARCH_LEVELS as nat,
            Marker::ProjectManifest,
            disk,
        ) {
            Some(root) => Ok(root),
            None => match current_exe {
                Err(reason) => Err(LocateFailure::ExecutableUnavailable(reason)),
                Ok(exe) => match nearest_marked(
                    containing_dir(exe),
                    BUNDLE_SEARCH_LEVELS as nat,
                    Marker::ProjectManifest,
                    disk,
                ) {
                    Some(root) => Ok(root),
                    None => Err(
                        LocateFailure::ProjectRootNotFound {
                            working_dir: dir.render(separator),
                            exe_dir: containing_dir(exe).render(separator),
                        },
                    ),
                },
            },
        },
    }
}

/// The directory to run the server in. A debug build takes the source tree
/// below the nearest project root within `PROJECT_SEARCH_LEVELS` levels from
/// the executable's directory upward; a release build takes
/// `resources/server` beside the executable, whether or not it is there.
/// Where the walk finds no source tree, the failure names the directory
/// from which it started.
pub open spec fn server_directory(
    current_exe: Result<PathView, Seq<char>>,
    debug_build: bool,
    separator: Seq<char>,
    disk: Set<PathView>,
) -> Result<PathView, LocateFailure> {
    match current_exe {
        Err(reason) => Err(LocateFailure::ExecutableUnavailable(reason)),
        Ok(exe) => if debug_build {
            match nearest_marked(
                containing_dir(exe),
                PROJECT_SEARCH_LEVELS as nat,
                Marker::ServerSources,
                disk,
            ) {
                Some(root) => Ok(server_sources_in(root)),
                None => Err(
                    LocateFailure::ServerDirectoryNotFound {
                        exe_dir: containing_dir(exe).render(separator),
                    },
                ),
            }
        } else {
            Ok(containing_dir(exe).join("resources"@).join("server"@))
        },
    }
}

/// Whether the host runs from a development setup: one of the two
/// development flags is set, or the executable's path is unknown or its name
/// has no extension.
pub open spec fn development_mode(
    tauri_dev: bool,
    debug: bool,
    current_exe: Result<PathView, Seq<char>>,
) -> bool {
    tauri_dev || debug || !(current_exe matches Ok(exe) && exe.has_parent() && name_has_extension(
        exe.components.last(),
    ))
}

/// The directory that holds `path`.
pub fn containing_dir_of(path: &FsPath) -> (r: FsPath)
    ensures
        r@ == containing_dir(path@),
{
    let mut dir = path.clone();
    dir.pop();
    dir
}

/// Finds the bundled server script from the executable's directory.
pub fn get_server_path(exe_dir: &FsPath, disk: &FsSnapshot) -> (r: FsPath)
    ensures
        r@ == server_path(exe_dir@, disk@),
{
    match find_nearest_marked(exe_dir, BUNDLE_SEARCH_LEVELS, Marker::BundledServer, disk) {
        Some(dir) => {
            let direct = script_path(&dir);
            if disk.has(&direct) {
                direct
            } else {
                script_path(&dir.join("src-tauri"))
            }
        },
        None => script_path(exe_dir),
    }
}

/// Finds the project root from the working directory, then from the
/// executable.
pub fn find_project_root(
    current_dir: &Result<FsPath, String>,
    current_exe: &Result<FsPath, String>,
    separator: &str,
    disk: &FsSnapshot,
) -> (r: Result<FsPath, LocateError>)
    ensures
        search_result(r) == project_root(
            reported(*current_dir),
            reported(*current_exe),
            separator@,
            disk@,
        ),
{
    let dir = match current_dir {
        Ok(dir) => dir,
        Err(reason) => {
            return Err(LocateError::CurrentDirUnavailable(reason.clone()));
        },
    };
    if let Some(root) = find_nearest_marked(dir, PROJECT_SEARCH_LEVELS, Marker::ProjectManifest, disk) {
        return Ok(root);
    }
    let exe = match current_exe {
        Ok(exe) => exe,
        Err(reason) => {
            return Err(LocateError::ExecutableUnavailable(reason.clone()));
        },
    };
    let exe_dir = containing_dir_of(exe);
    match find_nearest_marked(&exe_dir, BUNDLE_SEARCH_LEVELS, Marker::ProjectManifest, disk) {
        Some(root) => Ok(root),
        None => Err(
            LocateError::ProjectRootNotFound {
                working_dir: dir.render(separator),
                exe_dir: exe_dir.render(separator),
            },
        ),
    }
}

/// Finds the directory to run the server in.
pub fn find_server_directory(
    current_exe: &Result<FsPath, String>,
    debug_build: bool,
    separator: &str,
    disk: &FsSnapshot,
) -> (r: Result<FsPath, LocateError>)
    ensures
        search_result(r) == server_directory(
            reported(*current_exe),
            debug_build,
            separator@,
            disk@,
        ),
{
    let exe = match current_exe {
        Ok(exe) => exe,
        Err(reason) => {
            return Err(LocateError::ExecutableUnavailable(reason.clone()));
        },
    };
    let exe_dir = containing_dir_of(exe);
    if debug_build {
        match find_nearest_marked(&exe_dir, PROJECT_SEARCH_LEVELS, Marker::ServerSources, disk) {
            Some(root) => Ok(server_sources_path(&root)),
            None => Err(
                LocateError::ServerDirectoryNotFound { exe_dir: exe_dir.render(separator) },
            ),
        }
    } else {
        Ok(exe_dir.join("resources").join("server"))
    }
}

/// Whether the host runs from a development setup.
pub fn is_development_mode(tauri_dev: bool, debug: bool, current_exe: &Result<FsPath, String>) -> (r:
    bool)
    ensures
        r == development_mode(tauri_dev, debug, reported(*current_exe)),
{
    let packaged = match current_exe {
        Ok(exe) => exe.has_extension(),
        Err(_) => false,
    };
    tauri_dev || debug || !packaged
}

/// Whether `i` is the first place, below `limit`, at which `found` holds
/// `true`.
pub open spec fn is_first_found(found: Seq<bool>, limit: int, i: int) -> bool {
    &&& 0 <= i < limit
    &&& i < found.len()
    &&& found[i]
    &&& forall|j: int| 0 <= j < i ==> !found[j]
}

/// Whether `found` holds no `true` below `limit`.
pub open spec fn none_found(found: Seq<bool>, limit: int) -> bool {
    forall|j: int| 0 <= j < limit && j < found.len() ==> !found[j]
}

/// The names under which the script runtime may be installed, in the order
/// in which they are tried.
pub fn node_command_names() -> (names: Vec<String>)
    ensures
        names.len() == 2,
        names[0]@ == "node"@,
        names[1]@ == "node.exe"@,
{
    let mut names: Vec<String> = Vec::new();
    names.push("node".to_owned());
    names.push("node.exe".to_owned());
    names
}

/// Picks the first candidate that was found. `found[i]` says whether
/// `candidates[i]` is on the search path; a candidate without an answer
/// counts as not found.
pub fn pick_command(candidates: &Vec<String>, found: &Vec<bool>) -> (r: Result<String, LocateError>)
    ensures
        r matches Ok(name) ==> exists|i: int|
            is_first_found(found@, candidates.len() as int, i) && name@ == candidates[i]@,
        r matches Err(e) ==> none_found(found@, candidates.len() as int) && e@
            == LocateFailure::NodeNotFound,
{
    let mut i: usize = 0;
    while i < candidates.len() && i < found.len()
        invariant
            forall|j: int| 0 <= j < i && j < candidates.len() && j < found.len() ==> !found[j],
        decreases candidates.len() - i,
    {
        if found[i] {
            assert(is_first_found(found@, candidates.len() as int, i as int));
            return Ok(candidates[i].clone());
        }
        i += 1;
    }
    Err(LocateError::NodeNotFound)
}

/// Asks `which::which` whether an executable named `name` can be found as
/// the system's `which` command would find it. Nothing is claimed of the
/// answer: it depends on the search path and on what is on disk.
#[verifier::external_body]
fn on_search_path(name: &str) -> (found: bool) {
    which::which(name).is_ok()
}

/// Asks the system for each candidate in turn and stops at the first that is
/// on the search path: only the last answer can be `true`.
pub fn search_path_answers(candidates: &Vec<String>) -> (found: Vec<bool>)
    ensures
        found.len() <= candidates.len(),
        forall|j: int| 0 <= j < found.len() - 1 ==> !found[j],
        found.len() < candidates.len() ==> found.len() > 0 && found[found.len() - 1],
{
    let mut found: Vec<bool> = Vec::new();
    let mut i: usize = 0;
    while i < candidates.len()
        invariant
            i <= candidates.len(),
            found.len() == i,
            forall|j: int| 0 <= j < i ==> !found[j],
        decreases candidates.len() - i,
    {
        let answer = on_search_path(candidates[i].as_str());
        found.push(answer);
        if answer {
            return found;
        }
        i += 1;
    }
    found
}

/// Finds the name under which the script runtime is on the search path.
pub fn find_node_command() -> (r: Result<String, LocateError>)
    ensures
        r matches Ok(name) ==> name@ == "node"@ || name@ == "node.exe"@,
        r matches Err(e) ==> e@ == LocateFailure::NodeNotFound,
{
    let candidates = node_command_names();
    let found = search_path_answers(&candidates);
    pick_command(&candidates, &found)
}

/// The text of the place where the script runtime is installed.
pub open spec fn node_executable() -> Seq<char> {
    "C:\\Program Files\\nodejs\\node.exe"@
}

/// The script runtime's executable. It is taken to be at its default
/// installation place; the search never fails.
pub fn find_node_executable() -> (r: Result<String, LocateError>)
    ensures
        r matches Ok(path) && path@ == node_executable(),
{
    Ok("C:\\Program Files\\nodejs\\node.exe".to_owned())
}

} // verus!
