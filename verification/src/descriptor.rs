//! The static description of a service and the resolution of its launch
//! target against the two layouts in which it can be installed.

use crate::disk::FsSnapshot;
use crate::error::{LocateError, LocateFailure};
use crate::locator::{
    find_nearest_marked, nearest_marked, reported, Marker, PROJECT_SEARCH_LEVELS,
};
use crate::path::{FsPath, PathView};
use crate::text::{concat3, copy_strings, texts};
use vstd::prelude::*;
use vstd::string::*;

verus! {

/// A layout in which a service can be found.
#[derive(Clone, Copy, PartialEq, Eq, Structural, Debug)]
pub enum SearchStrategy {
    /// Bundled below the directory of the running executable.
    ProductionRelative,
    /// In a source tree, below the nearest project root at or above the
    /// working directory.
    DevelopmentRelative,
}

/// What a service descriptor is.
pub struct DescriptorView {
    pub name: Seq<char>,
    pub default_port: u16,
    pub required_executable: Seq<char>,
    pub runner: Seq<char>,
    pub dev_program: Seq<char>,
    pub dev_args: Seq<Seq<char>>,
    pub strategies: Seq<SearchStrategy>,
    pub search_levels: nat,
}

/// The static configuration of one service.
#[derive(Debug, PartialEq, Eq)]
pub struct ServiceDescriptor {
    /// The directory name of the service in either layout.
    pub name: String,
    /// The port that the service listens on unless told otherwise.
    pub default_port: u16,
    /// The file that must exist for the bundled service to count as
    /// installed.
    pub required_executable: String,
    /// The program that runs the bundled executable.
    pub runner: String,
    /// The program that runs the service from its source tree.
    pub dev_program: String,
    /// The arguments of `dev_program`.
    pub dev_args: Vec<String>,
    /// The layouts to try, in order.
    pub strategies: Vec<SearchStrategy>,
    /// How many directories the walk for a project root may visit.
    pub search_levels: usize,
}

impl View for ServiceDescriptor {
    type V = DescriptorView;

    open spec fn view(&self) -> DescriptorView {
        DescriptorView {
            name: self.name@,
            default_port: self.default_port,
            required_executable: self.required_executable@,
            runner: self.runner@,
            dev_program: self.dev_program@,
            dev_args: texts(self.dev_args@),
            strategies: self.strategies@,
            search_levels: self.search_levels as nat,
        }
    }
}

/// What a resolved launch target is.
pub struct TargetView {
    pub executable_path: Seq<char>,
    pub working_directory: Option<PathView>,
    pub args: Seq<Seq<char>>,
    pub layout: SearchStrategy,
}

/// Where a service was found and how to run it there.
#[derive(Debug, PartialEq, Eq)]
pub struct ResolvedLaunchTarget {
    /// The program to run.
    pub executable_path: String,
    /// The directory to run it in; `None` for the host's own.
    pub working_directory: Option<FsPath>,
    /// The arguments to pass.
    pub args: Vec<String>,
    /// The layout in which the service was found.
    pub layout: SearchStrategy,
}

impl View for ResolvedLaunchTarget {
    type V = TargetView;

    open spec fn view(&self) -> TargetView {
        TargetView {
            executable_path: self.executable_path@,
            working_directory: match self.working_directory {
                Some(dir) => Some(dir@),
                None => None,
            },
            args: texts(self.args@),
            layout: self.layout,
        }
    }
}

/// The place of the bundled executable of `d` below `exe_dir`.
pub open spec fn bundled_executable(d: DescriptorView, exe_dir: PathView) -> PathView {
    exe_dir.join("resources"@).join(d.name).join(d.required_executable)
}

/// The source directory of `d` below the project root `root`.
pub open spec fn source_directory(d: DescriptorView, root: PathView) -> PathView {
    root.join("apps"@).join(d.name)
}

/// A path as the host knows it: the path, or the system's reason for having
/// none.
pub type KnownPath = Result<PathView, Seq<char>>;

/// The text that names a place that was tried: the place, or a note that it
/// is unknown, with the system's reason.
pub open spec fn tried_place(place: Result<Seq<char>, Seq<char>>) -> Seq<char> {
    match place {
        Ok(text) => text,
        Err(reason) => "(unknown: "@ + reason + ")"@,
    }
}

/// The text that names the bundled place that was tried.
pub open spec fn tried_production(d: DescriptorView, exe_dir: KnownPath, separator: Seq<char>) -> Seq<
    char,
> {
    tried_place(
        match exe_dir {
            Ok(dir) => Ok(bundled_executable(d, dir).render(separator)),
            Err(reason) => Err(reason),
        },
    )
}

/// The text that names the directory from which the source tree was sought.
pub open spec fn tried_development(current_dir: KnownPath, separator: Seq<char>) -> Seq<char> {
    tried_place(
        match current_dir {
            Ok(dir) => Ok(dir.render(separator)),
            Err(reason) => Err(reason),
        },
    )
}

/// What one layout yields: the target, or `None` where the service is not
/// installed that way. The bundled layout asks for the executable's
/// directory only, the source tree for the working directory only; a layout
/// whose directory is unknown yields nothing.
pub open spec fn strategy_target(
    strategy: SearchStrategy,
    d: DescriptorView,
    exe_dir: KnownPath,
    current_dir: KnownPath,
    separator: Seq<char>,
    disk: Set<PathView>,
) -> Option<TargetView> {
    match strategy {
        SearchStrategy::ProductionRelative => match exe_dir {
            Ok(dir) => if disk.contains(bundled_executable(d, dir)) {
                Some(
                    TargetView {
                        executable_path: d.runner,
                        working_directory: None,
                        args: seq![bundled_executable(d, dir).render(separator)],
                        layout: SearchStrategy::ProductionRelative,
                    },
                )
            } else {
                None
            },
            Err(_) => None,
        },
        SearchStrategy::DevelopmentRelative => match current_dir {
            Ok(dir) => match nearest_marked(dir, d.search_levels, Marker::ProjectManifest, disk) {
                Some(root) => Some(
                    TargetView {
                        executable_path: d.dev_program,
                        working_directory: Some(source_directory(d, root)),
                        args: d.dev_args,
                        layout: SearchStrategy::DevelopmentRelative,
                    },
                ),
                None => None,
            },
            Err(_) => None,
        },
    }
}

/// The target of the first layout in `strategies` that yields one.
pub open spec fn first_target(
    strategies: Seq<SearchStrategy>,
    d: DescriptorView,
    exe_dir: KnownPath,
    current_dir: KnownPath,
    separator: Seq<char>,
    disk: Set<PathView>,
) -> Option<TargetView>
    decreases strategies.len(),
{
    if strategies.len() == 0 {
        None
    } else {
        match strategy_target(strategies[0], d, exe_dir, current_dir, separator, disk) {
            Some(target) => Some(target),
            None => first_target(
                strategies.drop_first(),
                d,
                exe_dir,
                current_dir,
                separator,
                disk,
            ),
        }
    }
}

/// The launch target of `d`: that of the first of its layouts that yields
/// one; where none does, the failure that names the bundled place and the
/// directory from which the source tree was sought.
pub open spec fn resolution(
    d: DescriptorView,
    exe_dir: KnownPath,
    current_dir: KnownPath,
    separator: Seq<char>,
    disk: Set<PathView>,
) -> Result<TargetView, LocateFailure> {
    match first_target(d.strategies, d, exe_dir, current_dir, separator, disk) {
        Some(target) => Ok(target),
        None => Err(
            LocateFailure::NotFound {
                production: tried_production(d, exe_dir, separator),
                development: tried_development(current_dir, separator),
            },
        ),
    }
}

/// What a resolution came to.
pub open spec fn resolve_result(r: Result<ResolvedLaunchTarget, LocateError>) -> Result<
    TargetView,
    LocateFailure,
> {
    match r {
        Ok(target) => Ok(target@),
        Err(e) => Err(e@),
    }
}

impl ServiceDescriptor {
    /// The backend server: the script `index.js` in the directory `server`,
    /// run by `runner` when bundled and by `npm run dev` from its sources,
    /// on port 8787. `development` puts the source tree first.
    pub fn backend(runner: &str, development: bool) -> (d: ServiceDescriptor)
        ensures
            d@.name == "server"@,
            d@.default_port == 8787,
            d@.required_executable == "index.js"@,
            d@.runner == runner@,
            d@.dev_program == "npm"@,
            d@.dev_args == seq!["run"@, "dev"@],
            d@.search_levels == PROJECT_SEARCH_LEVELS,
            d@.strategies == if development {
                seq![SearchStrategy::DevelopmentRelative, SearchStrategy::ProductionRelative]
            } else {
                seq![SearchStrategy::ProductionRelative, SearchStrategy::DevelopmentRelative]
            },
    {
        let mut dev_args: Vec<String> = Vec::new();
        dev_args.push("run".to_owned());
        dev_args.push("dev".to_owned());
        let mut strategies: Vec<SearchStrategy> = Vec::new();
        if development {
            strategies.push(SearchStrategy::DevelopmentRelative);
            strategies.push(SearchStrategy::ProductionRelative);
        } else {
            strategies.push(SearchStrategy::ProductionRelative);
            strategies.push(SearchStrategy::DevelopmentRelative);
        }
        let d = ServiceDescriptor {
            name: "server".to_owned(),
            default_port: 8787,
            required_executable: "index.js".to_owned(),
            runner: runner.to_owned(),
            dev_program: "npm".to_owned(),
            dev_args,
            strategies,
            search_levels: PROJECT_SEARCH_LEVELS,
        };
        assert(d@.dev_args =~= seq!["run"@, "dev"@]);
        assert(d@.strategies =~= if development {
            seq![SearchStrategy::DevelopmentRelative, SearchStrategy::ProductionRelative]
        } else {
            seq![SearchStrategy::ProductionRelative, SearchStrategy::DevelopmentRelative]
        });
        d
    }

    /// The place of the bundled executable below `exe_dir`.
    pub fn bundled_executable_path(&self, exe_dir: &FsPath) -> (r: FsPath)
        ensures
            r@ == bundled_executable(self@, exe_dir@),
    {
        exe_dir.join("resources").join(self.name.as_str()).join(self.required_executable.as_str())
    }

    /// What one layout yields.
    pub fn try_strategy(
        &self,
        strategy: SearchStrategy,
        exe_dir: &Result<FsPath, String>,
        current_dir: &Result<FsPath, String>,
        separator: &str,
        disk: &FsSnapshot,
    ) -> (r: Option<ResolvedLaunchTarget>)
        ensures
            r is Some <==> strategy_target(
                strategy,
                self@,
                reported(*exe_dir),
                reported(*current_dir),
                separator@,
                disk@,
            ) is Some,
            r matches Some(target) ==> Some(target@) == strategy_target(
                strategy,
                self@,
                reported(*exe_dir),
                reported(*current_dir),
                separator@,
                disk@,
            ),
    {
        match strategy {
            SearchStrategy::ProductionRelative => {
                let dir = match exe_dir {
                    Ok(dir) => dir,
                    Err(_) => {
                        return None;
                    },
                };
                let executable = self.bundled_executable_path(dir);
                if disk.has(&executable) {
                    let mut args: Vec<String> = Vec::new();
                    args.push(executable.render(separator));
                    assert(texts(args@) =~= seq![executable@.render(separator@)]);
                    Some(
                        ResolvedLaunchTarget {
                            executable_path: self.runner.clone(),
                            working_directory: None,
                            args,
                            layout: SearchStrategy::ProductionRelative,
                        },
                    )
                } else {
                    None
                }
            },
            SearchStrategy::DevelopmentRelative => {
                let dir = match current_dir {
                    Ok(dir) => dir,
                    Err(_) => {
                        return None;
                    },
                };
                match find_nearest_marked(dir, self.search_levels, Marker::ProjectManifest, disk) {
                    Some(root) => {
                        let args = copy_strings(&self.dev_args);
                        assert(texts(args@) =~= self@.dev_args);
                        Some(
                            ResolvedLaunchTarget {
                                executable_path: self.dev_program.clone(),
                                working_directory: Some(
                                    root.join("apps").join(self.name.as_str()),
                                ),
                                args,
                                layout: SearchStrategy::DevelopmentRelative,
                            },
                        )
                    },
                    None => None,
                }
            },
        }
    }

    /// The text that names the bundled place that was tried.
    pub fn tried_production_text(&self, exe_dir: &Result<FsPath, String>, separator: &str) -> (r:
        String)
        ensures
            r@ == tried_production(self@, reported(*exe_dir), separator@),
    {
        match exe_dir {
            Ok(dir) => self.bundled_executable_path(dir).render(separator),
            Err(reason) => concat3("(unknown: ", reason.as_str(), ")"),
        }
    }

    /// Resolves the launch target, trying the layouts in order.
    pub fn resolve(
        &self,
        exe_dir: &Result<FsPath, String>,
        current_dir: &Result<FsPath, String>,
        separator: &str,
        disk: &FsSnapshot,
    ) -> (r: Result<ResolvedLaunchTarget, LocateError>)
        ensures
            resolve_result(r) == resolution(
                self@,
                reported(*exe_dir),
                reported(*current_dir),
                separator@,
                disk@,
            ),
    {
        let mut i: usize = 0;
        assert(self.strategies@.skip(0) =~= self.strategies@);
        while i < self.strategies.len()
            invariant
                i <= self.strategies.len(),
                first_target(
                    self.strategies@.skip(i as int),
                    self@,
                    reported(*exe_dir),
                    reported(*current_dir),
                    separator@,
                    disk@,
                ) == first_target(
                    self.strategies@,
                    self@,
                    reported(*exe_dir),
                    reported(*current_dir),
                    separator@,
                    disk@,
                ),
            decreases self.strategies.len() - i,
        {
            assert(self.strategies@.skip(i as int).drop_first() =~= self.strategies@.skip(i + 1));
            if let Some(target) = self.try_strategy(
                self.strategies[i],
                exe_dir,
                current_dir,
                separator,
                disk,
            ) {
                return Ok(target);
            }
            i += 1;
        }
        let development = match current_dir {
            Ok(dir) => dir.render(separator),
            Err(reason) => concat3("(unknown: ", reason.as_str(), ")"),
        };
        Err(
            LocateError::NotFound {
                production: self.tried_production_text(exe_dir, separator),
                development,
            },
        )
    }
}

} // verus!
