//! The places that the host must look at before it asks the locator: a
//! snapshot that is right about these is as good as the disk itself.

use crate::descriptor::{bundled_executable, DescriptorView, ServiceDescriptor};
use crate::locator::{
    host_sources_in, manifest_in, manifest_path, script_path, script_under, server_sources_in,
    server_sources_path, Marker, BUNDLE_SEARCH_LEVELS, PROJECT_SEARCH_LEVELS,
};
use crate::path::{FsPath, PathView};
use vstd::prelude::*;

verus! {

/// Whether `place` is among the paths of `list`.
pub open spec fn listed(list: Seq<FsPath>, place: PathView) -> bool {
    exists|i: int| 0 <= i < list.len() && (#[trigger] list[i])@ == place
}

/// Whether the presence of `place` bears on whether `dir` is marked.
pub open spec fn reads(marker: Marker, dir: PathView, place: PathView) -> bool {
    match marker {
        Marker::ProjectManifest => place == manifest_in(dir),
        Marker::BundledServer => place == script_under(dir) || place == script_under(
            host_sources_in(dir),
        ),
        Marker::ServerSources => place == server_sources_in(dir) || place == manifest_in(
            server_sources_in(dir),
        ),
    }
}

/// Whether the presence of `place` bears on a walk of `levels` levels from
/// `start`.
pub open spec fn walk_reads(start: PathView, levels: nat, marker: Marker, place: PathView) -> bool {
    exists|k: nat| k < levels && reads(marker, #[trigger] start.ancestor(k), place)
}

/// Adds to `list` the places that bear on whether `dir` is marked.
pub fn push_marker_probes(list: &mut Vec<FsPath>, marker: Marker, dir: &FsPath)
    ensures
        forall|place: PathView|
            #![trigger listed(final(list)@, place)]
            listed(final(list)@, place) <==> listed(old(list)@, place) || reads(
                marker,
                dir@,
                place,
            ),
{
    let ghost before = list@;
    match marker {
        Marker::ProjectManifest => {
            list.push(manifest_path(dir));
        },
        Marker::BundledServer => {
            list.push(script_path(dir));
            list.push(script_path(&dir.join("src-tauri")));
        },
        Marker::ServerSources => {
            let sources = server_sources_path(dir);
            list.push(manifest_path(&sources));
            list.push(sources);
        },
    }
    assert forall|place: PathView|
        #![trigger listed(list@, place)]
        listed(list@, place) <==> listed(before, place) || reads(marker, dir@, place) by {
        if listed(before, place) {
            let i = choose|i: int| 0 <= i < before.len() && (#[trigger] before[i])@ == place;
            assert(list@[i]@ == place);
        }
        if reads(marker, dir@, place) {
            let n = before.len() as int;
            assert(list@[n]@ == place || (n + 1 < list@.len() && list@[n + 1]@ == place));
        }
        if listed(list@, place) {
            let i = choose|i: int| 0 <= i < list@.len() && (#[trigger] list@[i])@ == place;
            if i < before.len() {
                assert(before[i]@ == place);
            }
        }
    }
}

/// Adds to `list` the places that bear on a walk of `levels` levels from
/// `start`.
pub fn push_walk_probes(list: &mut Vec<FsPath>, start: &FsPath, levels: usize, marker: Marker)
    ensures
        forall|place: PathView|
            #![trigger listed(final(list)@, place)]
            listed(final(list)@, place) <==> listed(old(list)@, place) || walk_reads(
                start@,
                levels as nat,
                marker,
                place,
            ),
{
    let ghost before = list@;
    let mut current = start.clone();
    let mut done: usize = 0;
    while done < levels
        invariant
            done <= levels,
            current@ == start@.ancestor(done as nat),
            forall|place: PathView|
                #![trigger listed(list@, place)]
                listed(list@, place) <==> listed(before, place) || walk_reads(
                    start@,
                    done as nat,
                    marker,
                    place,
                ),
        decreases levels - done,
    {
        let ghost so_far = list@;
        push_marker_probes(list, marker, &current);
        proof {
            lemma_ancestor_step(start@, done as nat);
            assert forall|place: PathView|
                #![trigger listed(list@, place)]
                listed(list@, place) <==> listed(before, place) || walk_reads(
                    start@,
                    (done + 1) as nat,
                    marker,
                    place,
                ) by {
                let here = reads(marker, current@, place);
                let below = walk_reads(start@, done as nat, marker, place);
                let upto = walk_reads(start@, (done + 1) as nat, marker, place);
                assert(listed(list@, place) <==> listed(so_far, place) || here);
                assert(listed(so_far, place) <==> listed(before, place) || below);
                if upto {
                    let k = choose|k: nat|
                        k < done + 1 && reads(marker, #[trigger] start@.ancestor(k), place);
                    if k < done {
                        assert(below);
                    } else {
                        assert(k == done);
                        assert(here);
                    }
                }
                if below {
                    let k = choose|k: nat|
                        k < done && reads(marker, #[trigger] start@.ancestor(k), place);
                    assert(k < done + 1 && reads(marker, start@.ancestor(k), place));
                    assert(upto);
                }
                if here {
                    let k = done as nat;
                    assert(k < done + 1 && reads(marker, start@.ancestor(k), place));
                    assert(upto);
                }
                assert(upto <==> below || here);
            }
        }
        current.pop();
        done += 1;
    }
}

/// The ancestor one level further up is the parent of the ancestor below
/// it, or that ancestor itself at the anchor.
pub proof fn lemma_ancestor_step(path: PathView, levels: nat)
    ensures
        path.ancestor(levels + 1) == if path.ancestor(levels).has_parent() {
            path.ancestor(levels).parent()
        } else {
            path.ancestor(levels)
        },
    decreases levels,
{
    if levels == 0 {
        assert(path.ancestor(0) == path);
        if path.has_parent() {
            assert(path.parent().ancestor(0) == path.parent());
            assert(path.ancestor(1) == path.parent().ancestor(0));
        }
    } else if path.has_parent() {
        lemma_ancestor_step(path.parent(), (levels - 1) as nat);
        assert(path.ancestor(levels + 1) == path.parent().ancestor(levels));
        assert(path.ancestor(levels) == path.parent().ancestor((levels - 1) as nat));
    } else {
    }
}

/// Whether the presence of `place` bears on the resolution of `d`: it is the
/// bundled executable below the executable's directory, or a project
/// manifest in one of the directories that the walk from the working
/// directory may visit. A directory that the host does not know adds no
/// place.
pub open spec fn decides_resolution(
    d: DescriptorView,
    exe_dir: Result<PathView, Seq<char>>,
    current_dir: Result<PathView, Seq<char>>,
    place: PathView,
) -> bool {
    ||| exe_dir matches Ok(dir) && place == bundled_executable(d, dir)
    ||| current_dir matches Ok(dir) && walk_reads(
        dir,
        d.search_levels,
        Marker::ProjectManifest,
        place,
    )
}

/// Whether the presence of `place` bears on a search that starts from the
/// executable's directory.
pub open spec fn executable_reads(d: DescriptorView, exe_dir: PathView, place: PathView) -> bool {
    ||| place == bundled_executable(d, exe_dir)
    ||| walk_reads(exe_dir, BUNDLE_SEARCH_LEVELS as nat, Marker::BundledServer, place)
    ||| walk_reads(exe_dir, BUNDLE_SEARCH_LEVELS as nat, Marker::ProjectManifest, place)
    ||| walk_reads(exe_dir, PROJECT_SEARCH_LEVELS as nat, Marker::ServerSources, place)
}

/// Whether the presence of `place` bears on a search that starts from the
/// working directory.
pub open spec fn working_dir_reads(d: DescriptorView, current_dir: PathView, place: PathView) -> bool {
    ||| walk_reads(current_dir, PROJECT_SEARCH_LEVELS as nat, Marker::ProjectManifest, place)
    ||| walk_reads(current_dir, d.search_levels, Marker::ProjectManifest, place)
}

/// The places to look at for the searches that start from the executable's
/// directory.
pub fn executable_probes(descriptor: &ServiceDescriptor, exe_dir: &FsPath) -> (list: Vec<FsPath>)
    ensures
        forall|place: PathView|
            #![trigger listed(list@, place)]
            listed(list@, place) <==> executable_reads(descriptor@, exe_dir@, place),
{
    let mut list: Vec<FsPath> = Vec::new();
    list.push(descriptor.bundled_executable_path(exe_dir));
    let ghost first = list@;
    push_walk_probes(&mut list, exe_dir, BUNDLE_SEARCH_LEVELS, Marker::BundledServer);
    push_walk_probes(&mut list, exe_dir, BUNDLE_SEARCH_LEVELS, Marker::ProjectManifest);
    push_walk_probes(&mut list, exe_dir, PROJECT_SEARCH_LEVELS, Marker::ServerSources);
    assert forall|place: PathView| #![trigger listed(list@, place)]
        listed(list@, place) <==> executable_reads(descriptor@, exe_dir@, place) by {
        if listed(first, place) {
            let i = choose|i: int| 0 <= i < first.len() && (#[trigger] first[i])@ == place;
            assert(place == bundled_executable(descriptor@, exe_dir@));
        }
        if place == bundled_executable(descriptor@, exe_dir@) {
            assert(first[0]@ == place);
        }
    }
    list
}

/// The places to look at for the searches that start from the working
/// directory.
pub fn working_dir_probes(descriptor: &ServiceDescriptor, current_dir: &FsPath) -> (list: Vec<
    FsPath,
>)
    ensures
        forall|place: PathView|
            #![trigger listed(list@, place)]
            listed(list@, place) <==> working_dir_reads(descriptor@, current_dir@, place),
{
    let mut list: Vec<FsPath> = Vec::new();
    let ghost first = list@;
    push_walk_probes(&mut list, current_dir, PROJECT_SEARCH_LEVELS, Marker::ProjectManifest);
    push_walk_probes(&mut list, current_dir, descriptor.search_levels, Marker::ProjectManifest);
    assert forall|place: PathView| #![trigger listed(list@, place)]
        listed(list@, place) <==> working_dir_reads(descriptor@, current_dir@, place) by {
        assert(!listed(first, place));
    }
    list
}

} // verus!
