//! First-run seeding of the model cache from bundled resources.
//!
//! Seeding copies a bundled resource directory into the model-cache directory
//! exactly once: only when bundled resources exist, no seed marker is present,
//! and the cache directory is empty. The decision is computed here from the
//! three observed facts; the filesystem probes and the copy itself are
//! performed by the caller.

use vstd::prelude::*;
use vstd::string::StringExecFns;

verus! {

/// What a directory walk found at one relative path under the bundled
/// resource root.
#[derive(Clone, Copy, Debug, PartialEq, Eq, Structural)]
pub enum EntryKind {
    File,
    Directory,
}

/// One entry of the bundled resource directory, as the caller's walk
/// reported it: the path components relative to the resource root, and
/// whether it is a file or a directory. A walk lists a directory before
/// anything inside it.
#[derive(Debug)]
pub struct FsEntry {
    pub path: Vec<String>,
    pub kind: EntryKind,
}

/// One operation of a copy plan, relative to the two roots: create the
/// directory at this path under the target root, or copy the file at this
/// path from the source root to the same path under the target root,
/// overwriting what is there.
#[derive(Debug)]
pub enum CopyStep {
    MakeDir { path: Vec<String> },
    CopyFile { path: Vec<String> },
}

/// The step a copy plan owes one listed entry: a directory becomes a
/// `MakeDir` of its path, a file becomes a `CopyFile` of its path.
pub open spec fn step_matches_entry(s: CopyStep, e: FsEntry) -> bool {
    match e.kind {
        EntryKind::File => s matches CopyStep::CopyFile { path }
            && path.deep_view() == e.path.deep_view(),
        EntryKind::Directory => s matches CopyStep::MakeDir { path }
            && path.deep_view() == e.path.deep_view(),
    }
}

/// Duplicate a relative path, component by component.
fn copy_path(path: &Vec<String>) -> (r: Vec<String>)
    ensures
        r.deep_view() == path.deep_view(),
{
    let mut r: Vec<String> = Vec::new();
    let mut j: usize = 0;
    while j < path.len()
        invariant
            j <= path.len(),
            r.len() == j,
            forall|k: int| 0 <= k < j ==> r@[k]@ == path@[k]@,
        decreases path.len() - j,
    {
        r.push(String::from_str(path[j].as_str()));
        j += 1;
    }
    proof {
        assert(r.deep_view() =~= path.deep_view());
    }
    r
}

/// Turn the listing of the bundled resource directory into the plan that
/// copies it under the model-cache directory: first create the target root
/// itself, then, in listing order, create each listed directory and copy
/// each listed file, overwriting files already at the same path. Every
/// listed file is copied; nothing outside the listing is touched.
pub fn copy_plan(entries: &Vec<FsEntry>) -> (plan: Vec<CopyStep>)
    ensures
        plan@.len() == entries@.len() + 1,
        (plan@[0] matches CopyStep::MakeDir { path } && path@.len() == 0),
        forall|i: int| 0 <= i < entries@.len() ==> step_matches_entry(
            #[trigger] plan@[i + 1],
            entries@[i],
        ),
{
    let mut plan: Vec<CopyStep> = Vec::new();
    plan.push(CopyStep::MakeDir { path: Vec::new() });
    let mut i: usize = 0;
    while i < entries.len()
        invariant
            i <= entries.len(),
            plan@.len() == i + 1,
            (plan@[0] matches CopyStep::MakeDir { path } && path@.len() == 0),
            forall|k: int| 0 <= k < i ==> step_matches_entry(#[trigger] plan@[k + 1], entries@[k]),
        decreases entries.len() - i,
    {
        let e = &entries[i];
        let path = copy_path(&e.path);
        match e.kind {
            EntryKind::File => plan.push(CopyStep::CopyFile { path }),
            EntryKind::Directory => plan.push(CopyStep::MakeDir { path }),
        }
        i += 1;
    }
    plan
}

/// What first-run seeding should do, given the observed state of the
/// bundled resource directory and the model-cache directory.
#[derive(Clone, Copy, Debug, PartialEq, Eq, Structural)]
pub enum SeedDecision {
    /// No bundled resource directory was packaged: nothing to copy.
    NoBundledResources,
    /// The seed marker is already present: seeding ran before.
    AlreadySeeded,
    /// The cache directory already contains entries: never touch user data.
    UserDataPresent,
    /// Copy the bundled directory into the cache and write the marker.
    Seed,
}

/// The seeding rule: bundled resources must exist, the marker must be
/// absent, and the cache must be empty, in that order of precedence.
pub open spec fn seed_decision_spec(
    bundled_exists: bool,
    marker_exists: bool,
    cache_non_empty: bool,
) -> SeedDecision {
    if !bundled_exists {
        SeedDecision::NoBundledResources
    } else if marker_exists {
        SeedDecision::AlreadySeeded
    } else if cache_non_empty {
        SeedDecision::UserDataPresent
    } else {
        SeedDecision::Seed
    }
}

/// Decide whether first-run seeding runs, from the three facts the caller
/// observed on the filesystem: whether the bundled resource directory
/// exists, whether the seed marker file exists in the cache directory, and
/// whether the cache directory currently has any entry.
pub fn seed_decision(bundled_exists: bool, marker_exists: bool, cache_non_empty: bool) -> (d:
    SeedDecision)
    ensures
        d == seed_decision_spec(bundled_exists, marker_exists, cache_non_empty),
        d is Seed <==> bundled_exists && !marker_exists && !cache_non_empty,
        cache_non_empty ==> !(d is Seed),
        marker_exists ==> !(d is Seed),
{
    if !bundled_exists {
        SeedDecision::NoBundledResources
    } else if marker_exists {
        SeedDecision::AlreadySeeded
    } else if cache_non_empty {
        SeedDecision::UserDataPresent
    } else {
        SeedDecision::Seed
    }
}

/// Seeding is idempotent: a run that seeded wrote the marker, and with the
/// marker present every later decision skips, whatever the cache then holds.
pub proof fn lemma_seed_idempotent(
    bundled_exists: bool,
    marker_exists: bool,
    cache_non_empty: bool,
    later_non_empty: bool,
)
    requires
        seed_decision_spec(bundled_exists, marker_exists, cache_non_empty) is Seed,
    ensures
        seed_decision_spec(bundled_exists, true, later_non_empty) == SeedDecision::AlreadySeeded,
{
}

/// A non-empty cache directory is never seeded, whatever the bundled
/// resources or the marker say: existing user data is never modified.
pub proof fn lemma_user_data_untouched(bundled_exists: bool, marker_exists: bool)
    ensures
        seed_decision_spec(bundled_exists, marker_exists, true) != SeedDecision::Seed,
{
}

} // verus!
