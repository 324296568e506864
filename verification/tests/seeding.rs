use sidecar_supervisor::{copy_plan, seed_decision, CopyStep, EntryKind, FsEntry, SeedDecision};

#[test]
fn seeding_runs_only_on_a_pristine_first_run() {
    assert_eq!(seed_decision(true, false, false), SeedDecision::Seed);
    assert_eq!(seed_decision(false, false, false), SeedDecision::NoBundledResources);
    assert_eq!(seed_decision(false, true, true), SeedDecision::NoBundledResources);
    assert_eq!(seed_decision(true, true, false), SeedDecision::AlreadySeeded);
    assert_eq!(seed_decision(true, true, true), SeedDecision::AlreadySeeded);
    assert_eq!(seed_decision(true, false, true), SeedDecision::UserDataPresent);
}

#[test]
fn rerunning_after_a_seed_is_a_no_op() {
    // First run: bundled resources present, no marker, empty cache.
    assert_eq!(seed_decision(true, false, false), SeedDecision::Seed);
    // Seeding wrote the marker and filled the cache; every later run skips.
    assert_eq!(seed_decision(true, true, true), SeedDecision::AlreadySeeded);
}

#[test]
fn user_data_is_never_seeded_over() {
    for bundled in [false, true] {
        for marker in [false, true] {
            assert_ne!(seed_decision(bundled, marker, true), SeedDecision::Seed);
        }
    }
}

fn path(components: &[&str]) -> Vec<String> {
    components.iter().map(|c| c.to_string()).collect()
}

#[test]
fn copy_plan_covers_every_listed_entry_in_order() {
    let entries = vec![
        FsEntry { path: path(&["library"]), kind: EntryKind::Directory },
        FsEntry { path: path(&["library", "weights.bin"]), kind: EntryKind::File },
        FsEntry { path: path(&["manifest.txt"]), kind: EntryKind::File },
    ];
    let plan = copy_plan(&entries);
    assert_eq!(plan.len(), 4);
    match &plan[0] {
        CopyStep::MakeDir { path } => assert!(path.is_empty()),
        other => panic!("expected the target root first, got {:?}", other),
    }
    match &plan[1] {
        CopyStep::MakeDir { path } => assert_eq!(path, &vec!["library".to_string()]),
        other => panic!("expected a directory step, got {:?}", other),
    }
    match &plan[2] {
        CopyStep::CopyFile { path } => {
            assert_eq!(path, &vec!["library".to_string(), "weights.bin".to_string()])
        }
        other => panic!("expected a file copy, got {:?}", other),
    }
    match &plan[3] {
        CopyStep::CopyFile { path } => assert_eq!(path, &vec!["manifest.txt".to_string()]),
        other => panic!("expected a file copy, got {:?}", other),
    }
}

#[test]
fn copy_plan_of_an_empty_listing_only_creates_the_root() {
    let plan = copy_plan(&Vec::new());
    assert_eq!(plan.len(), 1);
    assert!(matches!(&plan[0], CopyStep::MakeDir { path } if path.is_empty()));
}
