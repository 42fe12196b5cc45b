use service_supervisor::descriptor::{ResolvedLaunchTarget, SearchStrategy, ServiceDescriptor};
use service_supervisor::disk::FsSnapshot;
use service_supervisor::error::LocateError;
use service_supervisor::path::FsPath;

fn at(text: &str) -> FsPath {
    FsPath {
        anchor: "/".to_string(),
        components: text.split('/').filter(|s| !s.is_empty()).map(|s| s.to_string()).collect(),
    }
}

fn snapshot(paths: &[&str]) -> FsSnapshot {
    let mut disk = FsSnapshot::new();
    for text in paths {
        disk.record(at(text));
    }
    disk
}

fn production_target() -> ResolvedLaunchTarget {
    ResolvedLaunchTarget {
        executable_path: "node".to_string(),
        working_directory: None,
        args: vec!["/opt/app/resources/server/index.js".to_string()],
        layout: SearchStrategy::ProductionRelative,
    }
}

fn development_target() -> ResolvedLaunchTarget {
    ResolvedLaunchTarget {
        executable_path: "npm".to_string(),
        working_directory: Some(at("/w/apps/server")),
        args: vec!["run".to_string(), "dev".to_string()],
        layout: SearchStrategy::DevelopmentRelative,
    }
}

#[test]
fn backend_descriptor_for_production() {
    let d = ServiceDescriptor::backend("node", false);
    assert_eq!(d.name, "server");
    assert_eq!(d.default_port, 8787);
    assert_eq!(d.required_executable, "index.js");
    assert_eq!(d.runner, "node");
    assert_eq!(d.dev_program, "npm");
    assert_eq!(d.dev_args, vec!["run".to_string(), "dev".to_string()]);
    assert_eq!(d.search_levels, 10);
    assert_eq!(
        d.strategies,
        vec![SearchStrategy::ProductionRelative, SearchStrategy::DevelopmentRelative]
    );
}

#[test]
fn backend_descriptor_for_development_tries_the_sources_first() {
    let d = ServiceDescriptor::backend("node", true);
    assert_eq!(
        d.strategies,
        vec![SearchStrategy::DevelopmentRelative, SearchStrategy::ProductionRelative]
    );
}

#[test]
fn bundled_executable_is_below_resources() {
    let d = ServiceDescriptor::backend("node", false);
    assert_eq!(d.bundled_executable_path(&at("/opt/app")), at("/opt/app/resources/server/index.js"));
}

#[test]
fn resolve_finds_the_bundled_service() {
    let d = ServiceDescriptor::backend("node", false);
    let disk = snapshot(&["/opt/app/resources/server/index.js"]);
    assert_eq!(d.resolve(&Ok(at("/opt/app")), &Ok(at("/home/u")), "/", &disk), Ok(production_target()));
}

#[test]
fn resolve_falls_back_to_the_source_tree() {
    let d = ServiceDescriptor::backend("node", false);
    let disk = snapshot(&["/w/package.json"]);
    assert_eq!(
        d.resolve(&Ok(at("/opt/app")), &Ok(at("/w/apps/desktop")), "/", &disk),
        Ok(development_target())
    );
}

#[test]
fn resolve_prefers_the_first_strategy() {
    let disk = snapshot(&["/opt/app/resources/server/index.js", "/w/package.json"]);
    let production_first = ServiceDescriptor::backend("node", false);
    assert_eq!(
        production_first.resolve(&Ok(at("/opt/app")), &Ok(at("/w")), "/", &disk),
        Ok(production_target())
    );
    let development_first = ServiceDescriptor::backend("node", true);
    assert_eq!(
        development_first.resolve(&Ok(at("/opt/app")), &Ok(at("/w")), "/", &disk),
        Ok(development_target())
    );
}

#[test]
fn resolve_names_both_places_when_nothing_is_found() {
    let d = ServiceDescriptor::backend("node", false);
    let r = d.resolve(&Ok(at("/opt/app")), &Ok(at("/home/u")), "/", &FsSnapshot::new());
    assert_eq!(
        r,
        Err(LocateError::NotFound {
            production: "/opt/app/resources/server/index.js".to_string(),
            development: "/home/u".to_string(),
        })
    );
}

#[test]
fn resolve_without_strategies_finds_nothing() {
    let mut d = ServiceDescriptor::backend("node", false);
    d.strategies = Vec::new();
    let disk = snapshot(&["/opt/app/resources/server/index.js", "/w/package.json"]);
    assert!(matches!(
        d.resolve(&Ok(at("/opt/app")), &Ok(at("/w")), "/", &disk),
        Err(LocateError::NotFound { .. })
    ));
}

#[test]
fn resolve_walk_is_bounded_by_the_descriptor() {
    let mut d = ServiceDescriptor::backend("node", false);
    d.search_levels = 2;
    let disk = snapshot(&["/w/package.json"]);
    assert_eq!(d.resolve(&Ok(at("/x")), &Ok(at("/w/a")), "/", &disk), Ok(development_target()));
    assert!(d.resolve(&Ok(at("/x")), &Ok(at("/w/a/b")), "/", &disk).is_err());
}

#[test]
fn resolve_renders_with_the_given_separator() {
    let d = ServiceDescriptor::backend("C:\\node.exe", false);
    let exe_dir = FsPath { anchor: "C:\\".to_string(), components: vec!["app".to_string()] };
    let mut disk = FsSnapshot::new();
    disk.record(d.bundled_executable_path(&exe_dir));
    let target = d.resolve(&Ok(exe_dir), &Ok(at("/")), "\\", &disk).unwrap();
    assert_eq!(target.executable_path, "C:\\node.exe");
    assert_eq!(target.args, vec!["C:\\app\\resources\\server\\index.js".to_string()]);
}

#[test]
fn resolve_is_repeatable() {
    let d = ServiceDescriptor::backend("node", false);
    let found = snapshot(&["/w/package.json"]);
    let first = d.resolve(&Ok(at("/opt/app")), &Ok(at("/w/a")), "/", &found);
    let second = d.resolve(&Ok(at("/opt/app")), &Ok(at("/w/a")), "/", &found);
    assert_eq!(first, second);
    let empty = FsSnapshot::new();
    assert_eq!(
        d.resolve(&Ok(at("/opt/app")), &Ok(at("/w/a")), "/", &empty),
        d.resolve(&Ok(at("/opt/app")), &Ok(at("/w/a")), "/", &empty)
    );
}

#[test]
fn try_strategy_reports_each_layout_by_itself() {
    let d = ServiceDescriptor::backend("node", false);
    let disk = snapshot(&["/w/package.json"]);
    assert_eq!(
        d.try_strategy(SearchStrategy::ProductionRelative, &Ok(at("/opt/app")), &Ok(at("/w")), "/", &disk),
        None
    );
    assert_eq!(
        d.try_strategy(SearchStrategy::DevelopmentRelative, &Ok(at("/opt/app")), &Ok(at("/w")), "/", &disk),
        Some(development_target())
    );
}

#[test]
fn bundled_service_is_found_without_a_working_directory() {
    let d = ServiceDescriptor::backend("node", false);
    let disk = snapshot(&["/opt/app/resources/server/index.js"]);
    assert_eq!(
        d.resolve(&Ok(at("/opt/app")), &Err("permission denied".to_string()), "/", &disk),
        Ok(production_target())
    );
    let development_first = ServiceDescriptor::backend("node", true);
    assert_eq!(
        development_first.resolve(&Ok(at("/opt/app")), &Err("permission denied".to_string()), "/", &disk),
        Ok(production_target())
    );
}

#[test]
fn source_tree_is_found_without_an_executable_path() {
    let d = ServiceDescriptor::backend("node", false);
    let disk = snapshot(&["/w/package.json"]);
    assert_eq!(
        d.resolve(&Err("gone".to_string()), &Ok(at("/w/apps/desktop")), "/", &disk),
        Ok(development_target())
    );
}

#[test]
fn unknown_directories_are_named_as_such_when_nothing_is_found() {
    let d = ServiceDescriptor::backend("node", false);
    let disk = snapshot(&["/opt/app/resources/server/index.js", "/w/package.json"]);
    assert_eq!(
        d.resolve(&Err("gone".to_string()), &Err("denied".to_string()), "/", &disk),
        Err(LocateError::NotFound {
            production: "(unknown: gone)".to_string(),
            development: "(unknown: denied)".to_string(),
        })
    );
    assert_eq!(
        d.resolve(&Ok(at("/x")), &Err("denied".to_string()), "/", &disk),
        Err(LocateError::NotFound {
            production: "/x/resources/server/index.js".to_string(),
            development: "(unknown: denied)".to_string(),
        })
    );
    assert_eq!(
        d.resolve(&Err("gone".to_string()), &Ok(at("/x")), "/", &disk),
        Err(LocateError::NotFound {
            production: "(unknown: gone)".to_string(),
            development: "/x".to_string(),
        })
    );
}

#[test]
fn tried_production_text_names_the_bundled_place() {
    let d = ServiceDescriptor::backend("node", false);
    assert_eq!(d.tried_production_text(&Ok(at("/opt/app")), "/"), "/opt/app/resources/server/index.js");
    assert_eq!(d.tried_production_text(&Err("gone".to_string()), "/"), "(unknown: gone)");
}
