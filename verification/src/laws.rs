//! What holds of the supervisor as a whole, proved from the contracts of its
//! operations.

use crate::commands::{host_resolution, server_status, target_plan, ServerState, ServerStatus};
use crate::descriptor::{
    bundled_executable, first_target, resolution, source_directory, tried_development,
    tried_production, DescriptorView, SearchStrategy, TargetView,
};
use crate::error::LocateFailure;
use crate::health::{verdict_after, Readiness};
use crate::launch::{LaunchKind, LaunchPlanView};
use crate::locator::{
    containing_dir, has_nested_script, host_sources_in, manifest_in, marked, nearest_marked,
    project_root, script_under, server_directory, server_path, server_sources_in, Marker,
    BUNDLE_SEARCH_LEVELS, PROJECT_SEARCH_LEVELS,
};
use crate::path::PathView;
use crate::probes::{decides_resolution, executable_reads, reads, walk_reads, working_dir_reads};
use crate::server::{server_start, ServerHandle};
use crate::slot::{id_after, ServiceSlot, SlotMove, SlotState};
use crate::text::decimal;
use vstd::prelude::*;

verus! {

/// Whatever has happened on a slot, a start that is asked while the slot is
/// not free is refused and changes nothing: no second process is ever asked
/// for while one is starting, running or being stopped.
pub proof fn law_second_start_is_refused<I>(slot: ServiceSlot<I>, moves: Seq<SlotMove<I>>)
    requires
        !slot.after_all(moves).is_stopped(),
    ensures
        slot.after_all(moves).start_begun() == slot.after_all(moves),
        slot.after_all(moves.push(SlotMove::BeginStart)) == slot.after_all(moves),
{
    let more = moves.push(SlotMove::BeginStart);
    assert(more.drop_last() =~= moves);
}

/// A start that was admitted and completed leaves the slot running, so
/// that the next start is refused and changes nothing.
pub proof fn law_start_after_start_is_refused<I>(slot: ServiceSlot<I>, handle: I, started_at: u64)
    requires
        slot.is_stopped(),
    ensures
        slot.start_begun().start_completed(handle, started_at).is_running(),
        slot.start_begun().start_completed(handle, started_at).start_begun()
            == slot.start_begun().start_completed(handle, started_at),
{
}

/// Whatever has happened on a slot, a stop that is asked while the slot
/// holds no instance is refused and changes nothing.
pub proof fn law_stop_of_empty_slot_changes_nothing<I>(
    slot: ServiceSlot<I>,
    moves: Seq<SlotMove<I>>,
)
    requires
        !slot.after_all(moves).is_running(),
    ensures
        slot.after_all(moves).stop_begun() == slot.after_all(moves),
        slot.after_all(moves.push(SlotMove::BeginStop)) == slot.after_all(moves),
{
    let more = moves.push(SlotMove::BeginStop);
    assert(more.drop_last() =~= moves);
}

/// After a start that was admitted and completed, the backend reports that
/// it runs, on the port it was started for; after a stop that was admitted
/// and completed, it reports that it does not run.
pub proof fn law_status_follows_start_and_stop<H>(
    state: ServerState<H>,
    child: H,
    port: u16,
    started_at: u64,
)
    requires
        state.slot.is_stopped(),
    ensures
        ({
            let started = ServerState {
                slot: state.slot.start_begun().start_completed(
                    ServerHandle { child, port },
                    started_at,
                ),
                descriptor: state.descriptor,
                target: state.target,
            };
            let stopped = ServerState {
                slot: started.slot.stop_begun().stop_completed(),
                descriptor: state.descriptor,
                target: state.target,
            };
            &&& server_status(started) == (ServerStatus { running: true, port })
            &&& server_status(stopped).running == false
            &&& stopped.slot.is_stopped()
        }),
{
}

/// When the process of the running instance ends by itself and that is
/// reported, the slot is free: it reports no instance, and the next start is
/// admitted.
pub proof fn law_exit_frees_the_slot<I>(slot: ServiceSlot<I>, id: u64)
    requires
        slot.holds(id),
    ensures
        !slot.exit_noted(id).is_running(),
        slot.exit_noted(id).is_stopped(),
        slot.exit_noted(id).start_begun().state is Starting,
{
}

/// On a slot that started empty, the instance it holds never has the number
/// that the next instance will get: a late report about an earlier instance
/// cannot be mistaken for one about its successor.
pub proof fn law_instance_numbers_are_fresh<I>(moves: Seq<SlotMove<I>>, service: crate::launch::Service)
    ensures
        ServiceSlot::<I>::new_slot(service).after_all(moves).state matches SlotState::Running(
            instance,
        ) ==> ServiceSlot::<I>::new_slot(service).after_all(moves).next_id == id_after(instance.id)
            && instance.id != ServiceSlot::<I>::new_slot(service).after_all(moves).next_id,
    decreases moves.len(),
{
    if moves.len() > 0 {
        law_instance_numbers_are_fresh::<I>(moves.drop_last(), service);
    }
}

/// A report that an instance ended, arriving after that instance was stopped
/// and a new one started, changes nothing.
pub proof fn law_stale_exit_is_ignored<I>(
    moves: Seq<SlotMove<I>>,
    service: crate::launch::Service,
    handle: I,
    started_at: u64,
)
    requires
        ServiceSlot::<I>::new_slot(service).after_all(moves).is_running(),
    ensures
        ({
            let slot = ServiceSlot::<I>::new_slot(service).after_all(moves);
            let old_id = slot.state->Running_0.id;
            let next = slot.stop_begun().stop_completed().start_begun().start_completed(
                handle,
                started_at,
            );
            next.is_running() && next.exit_noted(old_id) == next
        }),
{
    law_instance_numbers_are_fresh::<I>(moves, service);
}

/// What a walk finds is the nearest marked directory at or above its start:
/// it is marked, it lies fewer than `levels` levels up, and no directory
/// nearer to the start is marked. Where a walk finds nothing, none of the
/// directories up to `levels - 1` levels above the start is marked.
pub proof fn law_walk_finds_nearest(
    start: PathView,
    levels: nat,
    marker: Marker,
    disk: Set<PathView>,
)
    ensures
        match nearest_marked(start, levels, marker, disk) {
            Some(dir) => exists|k: nat|
                {
                    &&& k < levels
                    &&& dir == start.ancestor(k)
                    &&& marked(marker, dir, disk)
                    &&& forall|j: nat| j < k ==> !marked(marker, #[trigger] start.ancestor(j), disk)
                },
            None => forall|k: nat| k < levels ==> !marked(marker, #[trigger] start.ancestor(k), disk),
        },
    decreases levels,
{
    if levels == 0 {
    } else if marked(marker, start, disk) {
        assert(start.ancestor(0) == start);
    } else if !start.has_parent() {
        assert forall|k: nat| k < levels implies !marked(
            marker,
            #[trigger] start.ancestor(k),
            disk,
        ) by {
            lemma_ancestor_of_anchor(start, k);
        }
    } else {
        let rest = (levels - 1) as nat;
        law_walk_finds_nearest(start.parent(), rest, marker, disk);
        assert forall|k: nat| k >= 1 implies #[trigger] start.ancestor(k) == start.parent().ancestor(
            (k - 1) as nat,
        ) by {}
        assert(start.ancestor(0) == start);
        match nearest_marked(start.parent(), rest, marker, disk) {
            Some(dir) => {
                let k0 = choose|k: nat|
                    {
                        &&& k < rest
                        &&& dir == start.parent().ancestor(k)
                        &&& marked(marker, dir, disk)
                        &&& forall|j: nat|
                            j < k ==> !marked(marker, #[trigger] start.parent().ancestor(j), disk)
                    };
                let k1 = k0 + 1;
                assert(dir == start.ancestor(k1));
                assert forall|j: nat| j < k1 implies !marked(
                    marker,
                    #[trigger] start.ancestor(j),
                    disk,
                ) by {
                    if j >= 1 {
                        assert(start.ancestor(j) == start.parent().ancestor((j - 1) as nat));
                    }
                }
            },
            None => {
                assert forall|k: nat| k < levels implies !marked(
                    marker,
                    #[trigger] start.ancestor(k),
                    disk,
                ) by {
                    if k >= 1 {
                        assert(start.ancestor(k) == start.parent().ancestor((k - 1) as nat));
                    }
                }
            },
        }
    }
}

proof fn lemma_ancestor_of_anchor(path: PathView, levels: nat)
    requires
        !path.has_parent(),
    ensures
        path.ancestor(levels) == path,
{
}

proof fn lemma_walk_reads_its_places_only(
    start: PathView,
    levels: nat,
    marker: Marker,
    disk_a: Set<PathView>,
    disk_b: Set<PathView>,
)
    requires
        forall|place: PathView| #[trigger]
            walk_reads(start, levels, marker, place) ==> disk_a.contains(place)
                == disk_b.contains(place),
    ensures
        nearest_marked(start, levels, marker, disk_a) == nearest_marked(
            start,
            levels,
            marker,
            disk_b,
        ),
        nearest_marked(start, levels, marker, disk_a) matches Some(dir) ==> forall|place: PathView|
            reads(marker, dir, place) ==> #[trigger] disk_a.contains(place) == disk_b.contains(
                place,
            ),
    decreases levels,
{
    if levels > 0 {
        assert(start.ancestor(0) == start);
        assert forall|place: PathView| reads(marker, start, place) implies disk_a.contains(place)
            == disk_b.contains(place) by {
            assert(reads(marker, start.ancestor(0), place));
            assert(walk_reads(start, levels, marker, place));
        }
        lemma_marked_reads_its_places_only(marker, start, disk_a, disk_b);
        if !marked(marker, start, disk_a) && start.has_parent() {
            let rest = (levels - 1) as nat;
            assert forall|place: PathView| #[trigger]
                walk_reads(start.parent(), rest, marker, place) implies disk_a.contains(place)
                == disk_b.contains(place) by {
                let k = choose|k: nat|
                    k < rest && reads(marker, #[trigger] start.parent().ancestor(k), place);
                assert(start.ancestor(k + 1) == start.parent().ancestor(k));
                assert(reads(marker, start.ancestor(k + 1), place));
                assert(walk_reads(start, levels, marker, place));
            }
            lemma_walk_reads_its_places_only(start.parent(), rest, marker, disk_a, disk_b);
        }
    }
}

proof fn lemma_marked_reads_its_places_only(
    marker: Marker,
    dir: PathView,
    disk_a: Set<PathView>,
    disk_b: Set<PathView>,
)
    requires
        forall|place: PathView|
            reads(marker, dir, place) ==> #[trigger] disk_a.contains(place) == disk_b.contains(
                place,
            ),
    ensures
        marked(marker, dir, disk_a) == marked(marker, dir, disk_b),
        has_nested_script(dir, disk_a) == has_nested_script(dir, disk_b) || marker
            != Marker::BundledServer,
{
    match marker {
        Marker::ProjectManifest => {
            assert(reads(marker, dir, manifest_in(dir)));
        },
        Marker::BundledServer => {
            assert(reads(marker, dir, script_under(host_sources_in(dir))));
            assert(reads(marker, dir, script_under(dir)));
        },
        Marker::ServerSources => {
            assert(reads(marker, dir, server_sources_in(dir)));
            assert(reads(marker, dir, manifest_in(server_sources_in(dir))));
        },
    }
}

proof fn lemma_targets_agree(
    strategies: Seq<SearchStrategy>,
    d: DescriptorView,
    exe_dir: Result<PathView, Seq<char>>,
    current_dir: Result<PathView, Seq<char>>,
    separator: Seq<char>,
    disk_a: Set<PathView>,
    disk_b: Set<PathView>,
)
    requires
        forall|place: PathView| #[trigger]
            decides_resolution(d, exe_dir, current_dir, place) ==> disk_a.contains(place)
                == disk_b.contains(place),
    ensures
        first_target(strategies, d, exe_dir, current_dir, separator, disk_a) == first_target(
            strategies,
            d,
            exe_dir,
            current_dir,
            separator,
            disk_b,
        ),
    decreases strategies.len(),
{
    if let Ok(dir) = exe_dir {
        assert(decides_resolution(d, exe_dir, current_dir, bundled_executable(d, dir)));
    }
    if let Ok(dir) = current_dir {
        assert forall|place: PathView| #[trigger]
            walk_reads(dir, d.search_levels, Marker::ProjectManifest, place) implies disk_a.contains(
            place,
        ) == disk_b.contains(place) by {
            assert(decides_resolution(d, exe_dir, current_dir, place));
        }
        lemma_walk_reads_its_places_only(
            dir,
            d.search_levels,
            Marker::ProjectManifest,
            disk_a,
            disk_b,
        );
    }
    if strategies.len() > 0 {
        lemma_targets_agree(
            strategies.drop_first(),
            d,
            exe_dir,
            current_dir,
            separator,
            disk_a,
            disk_b,
        );
    }
}

/// Resolution is a function of what is on disk, and only of the places that
/// decide it: two states of the disk that agree on those places, and so any
/// two that are the same, give the same launch target or the same failure.
pub proof fn law_resolution_is_deterministic(
    d: DescriptorView,
    exe_dir: Result<PathView, Seq<char>>,
    current_dir: Result<PathView, Seq<char>>,
    separator: Seq<char>,
    disk_a: Set<PathView>,
    disk_b: Set<PathView>,
)
    requires
        forall|place: PathView| #[trigger]
            decides_resolution(d, exe_dir, current_dir, place) ==> disk_a.contains(place)
                == disk_b.contains(place),
    ensures
        resolution(d, exe_dir, current_dir, separator, disk_a) == resolution(
            d,
            exe_dir,
            current_dir,
            separator,
            disk_b,
        ),
{
    lemma_targets_agree(d.strategies, d, exe_dir, current_dir, separator, disk_a, disk_b);
}

/// A health check is over after a bounded number of probes: once more
/// probes have been answered than there are retries, the verdict is in, and
/// it is `Ready` exactly when one of the probes that counted was answered.
pub proof fn law_health_check_ends(retries: nat, answers: Seq<bool>)
    requires
        answers.len() > retries,
    ensures
        verdict_after(retries, answers) is Some,
        verdict_after(retries, answers) == Some(Readiness::Ready) <==> exists|i: int|
            0 <= i <= retries && answers[i],
{
    if verdict_after(retries, answers) == Some(Readiness::Ready) {
        let i = choose|i: int| 0 <= i < answers.len() && i < retries + 1 && answers[i];
        assert(0 <= i <= retries && answers[i]);
    }
    if exists|i: int| 0 <= i <= retries && answers[i] {
        let i = choose|i: int| 0 <= i <= retries && answers[i];
        assert(0 <= i < answers.len() && i < retries + 1 && answers[i]);
    }
}

/// A snapshot that is right about the listed places is as good as the disk:
/// two states of the disk that agree on the places that bear on the searches
/// from the executable's directory and from the working directory give the
/// same bundled script, present or absent alike, the same project root, the
/// same server directory, the same resolution and the same launch plan.
pub proof fn law_searches_read_listed_places_only(
    d: DescriptorView,
    exe: PathView,
    current_dir: PathView,
    debug_build: bool,
    tauri_dev: bool,
    debug: bool,
    port: u16,
    separator: Seq<char>,
    disk_a: Set<PathView>,
    disk_b: Set<PathView>,
)
    requires
        forall|place: PathView| #[trigger]
            executable_reads(d, containing_dir(exe), place) ==> disk_a.contains(place)
                == disk_b.contains(place),
        forall|place: PathView| #[trigger]
            working_dir_reads(d, current_dir, place) ==> disk_a.contains(place) == disk_b.contains(
                place,
            ),
    ensures
        server_path(containing_dir(exe), disk_a) == server_path(containing_dir(exe), disk_b),
        disk_a.contains(server_path(containing_dir(exe), disk_a)) == disk_b.contains(
            server_path(containing_dir(exe), disk_b),
        ),
        project_root(Ok(current_dir), Ok(exe), separator, disk_a) == project_root(
            Ok(current_dir),
            Ok(exe),
            separator,
            disk_b,
        ),
        server_directory(Ok(exe), debug_build, separator, disk_a) == server_directory(
            Ok(exe),
            debug_build,
            separator,
            disk_b,
        ),
        resolution(d, Ok(containing_dir(exe)), Ok(current_dir), separator, disk_a) == resolution(
            d,
            Ok(containing_dir(exe)),
            Ok(current_dir),
            separator,
            disk_b,
        ),
        server_start(port, tauri_dev, debug, Ok(current_dir), Ok(exe), separator, disk_a)
            == server_start(port, tauri_dev, debug, Ok(current_dir), Ok(exe), separator, disk_b),
{
    let exe_dir = containing_dir(exe);
    let bundle = BUNDLE_SEARCH_LEVELS as nat;
    let project = PROJECT_SEARCH_LEVELS as nat;
    assert forall|place: PathView| #[trigger]
        walk_reads(exe_dir, bundle, Marker::BundledServer, place) implies disk_a.contains(place)
        == disk_b.contains(place) by {
        assert(executable_reads(d, exe_dir, place));
    }
    assert forall|place: PathView| #[trigger]
        walk_reads(exe_dir, bundle, Marker::ProjectManifest, place) implies disk_a.contains(place)
        == disk_b.contains(place) by {
        assert(executable_reads(d, exe_dir, place));
    }
    assert forall|place: PathView| #[trigger]
        walk_reads(exe_dir, project, Marker::ServerSources, place) implies disk_a.contains(place)
        == disk_b.contains(place) by {
        assert(executable_reads(d, exe_dir, place));
    }
    assert forall|place: PathView| #[trigger]
        walk_reads(current_dir, project, Marker::ProjectManifest, place) implies disk_a.contains(
        place,
    ) == disk_b.contains(place) by {
        assert(working_dir_reads(d, current_dir, place));
    }
    assert forall|place: PathView| #[trigger]
        decides_resolution(d, Ok(exe_dir), Ok(current_dir), place) implies disk_a.contains(place)
        == disk_b.contains(place) by {
        if place == bundled_executable(d, exe_dir) {
            assert(executable_reads(d, exe_dir, place));
        } else {
            assert(working_dir_reads(d, current_dir, place));
        }
    }
    lemma_walk_reads_its_places_only(exe_dir, bundle, Marker::BundledServer, disk_a, disk_b);
    lemma_walk_reads_its_places_only(exe_dir, bundle, Marker::ProjectManifest, disk_a, disk_b);
    lemma_walk_reads_its_places_only(exe_dir, project, Marker::ServerSources, disk_a, disk_b);
    lemma_walk_reads_its_places_only(current_dir, project, Marker::ProjectManifest, disk_a, disk_b);
    law_resolution_is_deterministic(
        d,
        Ok(exe_dir),
        Ok(current_dir),
        separator,
        disk_a,
        disk_b,
    );
    match nearest_marked(exe_dir, bundle, Marker::BundledServer, disk_a) {
        Some(dir) => {
            lemma_marked_reads_its_places_only(Marker::BundledServer, dir, disk_a, disk_b);
            assert(reads(Marker::BundledServer, dir, script_under(host_sources_in(dir))));
            assert(reads(Marker::BundledServer, dir, script_under(dir)));
        },
        None => {
            assert(exe_dir.ancestor(0) == exe_dir);
            assert(reads(Marker::BundledServer, exe_dir.ancestor(0), script_under(exe_dir)));
            assert(walk_reads(exe_dir, bundle, Marker::BundledServer, script_under(exe_dir)));
        },
    }
}

/// With the bundled layout first and the source tree second, resolution
/// yields the bundled target wherever the executable's directory is known
/// and the bundled executable is present, whether or not the working
/// directory is known; else the target in the source tree below the nearest
/// project root at or above the working directory; else the failure that
/// names both places.
pub proof fn law_production_comes_first(
    d: DescriptorView,
    exe_dir: Result<PathView, Seq<char>>,
    current_dir: Result<PathView, Seq<char>>,
    separator: Seq<char>,
    disk: Set<PathView>,
)
    requires
        d.strategies == seq![
            SearchStrategy::ProductionRelative,
            SearchStrategy::DevelopmentRelative,
        ],
    ensures
        resolution(d, exe_dir, current_dir, separator, disk) == if exe_dir is Ok && disk.contains(
            bundled_executable(d, exe_dir->Ok_0),
        ) {
            Ok::<TargetView, LocateFailure>(
                TargetView {
                    executable_path: d.runner,
                    working_directory: None,
                    args: seq![bundled_executable(d, exe_dir->Ok_0).render(separator)],
                    layout: SearchStrategy::ProductionRelative,
                },
            )
        } else if current_dir is Ok && nearest_marked(
            current_dir->Ok_0,
            d.search_levels,
            Marker::ProjectManifest,
            disk,
        ) is Some {
            Ok(
                TargetView {
                    executable_path: d.dev_program,
                    working_directory: Some(
                        source_directory(
                            d,
                            nearest_marked(
                                current_dir->Ok_0,
                                d.search_levels,
                                Marker::ProjectManifest,
                                disk,
                            )->0,
                        ),
                    ),
                    args: d.dev_args,
                    layout: SearchStrategy::DevelopmentRelative,
                },
            )
        } else {
            Err(
                LocateFailure::NotFound {
                    production: tried_production(d, exe_dir, separator),
                    development: tried_development(current_dir, separator),
                },
            )
        },
{
    let rest = d.strategies.drop_first();
    assert(rest =~= seq![SearchStrategy::DevelopmentRelative]);
    assert(rest.drop_first() =~= Seq::<SearchStrategy>::empty());
    reveal_with_fuel(first_target, 3);
}

/// Where the script directly below a directory is present, the search from
/// that directory finds it, whatever else is there.
pub proof fn law_bundled_script_beside_the_executable_wins(exe_dir: PathView, disk: Set<PathView>)
    requires
        disk.contains(script_under(exe_dir)),
    ensures
        server_path(exe_dir, disk) == script_under(exe_dir),
{
    reveal_with_fuel(nearest_marked, 2);
}

/// On a host that knows where its executable is and has the service
/// bundled beside it, a descriptor that tries the bundled layout first
/// resolves to the bundled target whatever the host knows of its working
/// directory, and the start that follows is planned on the port asked for.
pub proof fn law_bundled_start_needs_no_working_directory(
    d: DescriptorView,
    exe: PathView,
    current_dir: Result<PathView, Seq<char>>,
    separator: Seq<char>,
    disk: Set<PathView>,
    port: u16,
)
    requires
        d.strategies == seq![
            SearchStrategy::ProductionRelative,
            SearchStrategy::DevelopmentRelative,
        ],
        disk.contains(bundled_executable(d, containing_dir(exe))),
    ensures
        host_resolution(d, Ok(exe), current_dir, separator, disk) matches Ok(target) && target_plan(
            target,
            port,
        ) == (LaunchPlanView {
            kind: LaunchKind::ProductionServer,
            program: d.runner,
            args: seq![bundled_executable(d, containing_dir(exe)).render(separator)],
            env: seq![("PORT"@, decimal(port as nat))],
            working_dir: None,
            capture_output: false,
            kill_on_drop: false,
        }),
{
    law_production_comes_first(d, Ok(containing_dir(exe)), current_dir, separator, disk);
}

} // verus!
