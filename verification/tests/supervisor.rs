use sidecar_supervisor::{Action, Event, Phase, SetupError, SidecarRegistry, Supervisor, POLL_ATTEMPTS};

#[test]
fn happy_path_spawns_both_and_polls_until_live() {
    // Both target ports free, no bundled resources to seed, functioning
    // executables: startup spawns exactly two children, the polling loop
    // observes the backend become live within its bound, and teardown
    // terminates both.
    let mut sup = Supervisor::new();
    let mut registry = SidecarRegistry::new();
    assert!(matches!(sup.start_action(), Action::ProbeOllamaPort));

    assert!(matches!(sup.step(Event::OllamaProbe { live: false }), Action::ResolveModelsDir));
    assert!(matches!(sup.step(Event::ModelsDirResolved { found: true }), Action::PrepareCache));
    assert!(matches!(sup.step(Event::CachePrepared { ok: true }), Action::ResolveOllamaExe));
    assert!(matches!(sup.step(Event::OllamaExeResolved { found: true }), Action::SpawnOllama));
    registry.record_ollama(101);
    assert!(matches!(sup.step(Event::OllamaSpawned { ok: true }), Action::ProbeBackendPort));

    assert!(matches!(sup.step(Event::BackendProbe { live: false }), Action::PrepareDataDir));
    assert!(matches!(sup.step(Event::DataDirPrepared { ok: true }), Action::ResolveBackendExe));
    assert!(matches!(sup.step(Event::BackendExeResolved { found: true }), Action::SpawnBackend));
    registry.record_backend(202);
    assert!(matches!(sup.step(Event::BackendSpawned { ok: true }), Action::PollBackendPort));

    // The port becomes live on the third poll, well within the budget.
    assert!(matches!(sup.step(Event::BackendPoll { live: false }), Action::PollBackendPort));
    assert!(matches!(sup.step(Event::BackendPoll { live: false }), Action::PollBackendPort));
    assert!(matches!(sup.step(Event::BackendPoll { live: true }), Action::Finish));

    assert_eq!(sup.phase, Phase::Done);
    assert!(sup.ollama_spawned);
    assert!(sup.backend_spawned);

    let victims = registry.teardown();
    assert_eq!(victims, vec![101, 202]);
    assert!(registry.ollama.is_none());
    assert!(registry.backend.is_none());
}

#[test]
fn live_services_are_not_duplicated() {
    let mut sup = Supervisor::new();
    assert!(matches!(sup.step(Event::OllamaProbe { live: true }), Action::ProbeBackendPort));
    assert!(matches!(sup.step(Event::BackendProbe { live: true }), Action::Finish));
    assert_eq!(sup.phase, Phase::Done);
    assert!(!sup.ollama_spawned);
    assert!(!sup.backend_spawned);
}

#[test]
fn poll_exhaustion_finishes_without_error() {
    let mut sup = Supervisor::new();
    sup.step(Event::OllamaProbe { live: true });
    sup.step(Event::BackendProbe { live: false });
    sup.step(Event::DataDirPrepared { ok: true });
    sup.step(Event::BackendExeResolved { found: true });
    let first = sup.step(Event::BackendSpawned { ok: true });
    assert!(matches!(first, Action::PollBackendPort));

    // One poll was already ordered on entry; the port never becomes live.
    let mut polls: u32 = 1;
    loop {
        match sup.step(Event::BackendPoll { live: false }) {
            Action::PollBackendPort => polls += 1,
            Action::Finish => break,
            other => panic!("unexpected action {:?}", other),
        }
    }
    assert_eq!(polls, POLL_ATTEMPTS as u32);
    assert_eq!(sup.phase, Phase::Done);
}

#[test]
fn setup_failures_abort_startup() {
    let cases: Vec<(Vec<Event>, Event, SetupError)> = vec![
        (
            vec![Event::OllamaProbe { live: false }],
            Event::ModelsDirResolved { found: false },
            SetupError::NoHomeDir,
        ),
        (
            vec![Event::OllamaProbe { live: false }, Event::ModelsDirResolved { found: true }],
            Event::CachePrepared { ok: false },
            SetupError::CachePreparationFailed,
        ),
        (
            vec![
                Event::OllamaProbe { live: false },
                Event::ModelsDirResolved { found: true },
                Event::CachePrepared { ok: true },
            ],
            Event::OllamaExeResolved { found: false },
            SetupError::NoOllamaExecutable,
        ),
        (
            vec![
                Event::OllamaProbe { live: false },
                Event::ModelsDirResolved { found: true },
                Event::CachePrepared { ok: true },
                Event::OllamaExeResolved { found: true },
            ],
            Event::OllamaSpawned { ok: false },
            SetupError::OllamaSpawnFailed,
        ),
        (
            vec![Event::OllamaProbe { live: true }, Event::BackendProbe { live: false }],
            Event::DataDirPrepared { ok: false },
            SetupError::DataDirFailed,
        ),
        (
            vec![
                Event::OllamaProbe { live: true },
                Event::BackendProbe { live: false },
                Event::DataDirPrepared { ok: true },
            ],
            Event::BackendExeResolved { found: false },
            SetupError::NoBackendExecutable,
        ),
        (
            vec![
                Event::OllamaProbe { live: true },
                Event::BackendProbe { live: false },
                Event::DataDirPrepared { ok: true },
                Event::BackendExeResolved { found: true },
            ],
            Event::BackendSpawned { ok: false },
            SetupError::BackendSpawnFailed,
        ),
    ];
    for (prefix, failing, expected) in cases {
        let mut sup = Supervisor::new();
        for e in prefix {
            sup.step(e);
        }
        match sup.step(failing) {
            Action::Abort { error } => assert_eq!(error, expected),
            other => panic!("expected an abort, got {:?}", other),
        }
        assert_eq!(sup.phase, Phase::Failed);
    }
}

#[test]
fn mismatched_outcome_aborts() {
    let mut sup = Supervisor::new();
    match sup.step(Event::BackendPoll { live: true }) {
        Action::Abort { error } => assert_eq!(error, SetupError::UnexpectedEvent),
        other => panic!("expected an abort, got {:?}", other),
    }
    assert_eq!(sup.phase, Phase::Failed);
}
