//! The startup sequence of the supervisor, as a state machine.
//!
//! The supervisor decides; the caller acts. Each [`Supervisor::step`] call
//! takes the plain outcome of the last performed action (a port probe, a
//! directory resolution, a spawn) and returns the next [`Action`] to
//! perform. The sequence mirrors the launch order: probe the daemon port,
//! prepare and spawn the daemon if it is not live, probe the backend port,
//! prepare and spawn the backend if it is not live, then poll the backend
//! port a bounded number of times. Any failed preparation or spawn aborts
//! the whole sequence; an exhausted poll budget does not.

use vstd::prelude::*;

verus! {

/// Timeout of one bounded connection attempt, in milliseconds.
pub const PROBE_TIMEOUT_MS: u64 = 200;

/// Pause between two backend readiness polls, in milliseconds.
pub const POLL_INTERVAL_MS: u64 = 250;

/// How many readiness polls the backend is granted before startup proceeds
/// without it.
pub const POLL_ATTEMPTS: u8 = 60;

/// Where the startup sequence stands.
#[derive(Clone, Copy, Debug, PartialEq, Eq, Structural)]
pub enum Phase {
    /// Probing the daemon port.
    ProbingOllama,
    /// Daemon not live: resolving the model-cache directory.
    ResolvingModelsDir,
    /// Seeding the model cache if applicable and ensuring it exists.
    PreparingCache,
    /// Resolving the daemon executable.
    ResolvingOllamaExe,
    /// Waiting for the outcome of the daemon spawn.
    SpawningOllama,
    /// Probing the backend port.
    ProbingBackend,
    /// Backend not live: ensuring the application data directory exists.
    PreparingDataDir,
    /// Resolving the backend executable.
    ResolvingBackendExe,
    /// Waiting for the outcome of the backend spawn.
    SpawningBackend,
    /// Polling the backend port until it is live or the budget runs out.
    PollingBackend,
    /// Startup finished; spawned services run on.
    Done,
    /// Startup aborted.
    Failed,
}

/// Why the startup sequence aborted.
#[derive(Clone, Copy, Debug, PartialEq, Eq, Structural)]
pub enum SetupError {
    /// No home directory, so no model-cache directory.
    NoHomeDir,
    /// Seeding or creating the model-cache directory failed.
    CachePreparationFailed,
    /// No daemon executable could be resolved.
    NoOllamaExecutable,
    /// Spawning the daemon failed.
    OllamaSpawnFailed,
    /// Resolving or creating the application data directory failed.
    DataDirFailed,
    /// No backend executable could be resolved.
    NoBackendExecutable,
    /// Spawning the backend failed.
    BackendSpawnFailed,
    /// The reported outcome does not belong to the pending action.
    UnexpectedEvent,
}

/// The outcome of the last performed action, reported back to the
/// supervisor.
#[derive(Clone, Copy, Debug, PartialEq, Eq, Structural)]
pub enum Event {
    /// Whether the bounded connection attempt on the daemon port succeeded.
    OllamaProbe { live: bool },
    /// Whether the model-cache directory could be resolved.
    ModelsDirResolved { found: bool },
    /// Whether seeding and creating the model-cache directory succeeded.
    CachePrepared { ok: bool },
    /// Whether a daemon executable could be resolved.
    OllamaExeResolved { found: bool },
    /// Whether the daemon spawn succeeded and its handle was recorded.
    OllamaSpawned { ok: bool },
    /// Whether the bounded connection attempt on the backend port succeeded.
    BackendProbe { live: bool },
    /// Whether the application data directory exists now.
    DataDirPrepared { ok: bool },
    /// Whether a backend executable could be resolved.
    BackendExeResolved { found: bool },
    /// Whether the backend spawn succeeded and its handle was recorded.
    BackendSpawned { ok: bool },
    /// Whether one backend readiness poll found the port live.
    BackendPoll { live: bool },
}

/// What the caller must do next.
#[derive(Clone, Copy, Debug, PartialEq, Eq, Structural)]
pub enum Action {
    /// Attempt a connection to the daemon port, timeout `PROBE_TIMEOUT_MS`.
    ProbeOllamaPort,
    /// Resolve the model-cache directory from the home directory.
    ResolveModelsDir,
    /// Run the seeding decision on the cache, execute a copy plan if it says
    /// to seed, and create the cache directory.
    PrepareCache,
    /// Resolve the daemon executable (bundled candidate, then search path).
    ResolveOllamaExe,
    /// Spawn the daemon as its spawn request says and record the handle.
    SpawnOllama,
    /// Attempt a connection to the backend port, timeout `PROBE_TIMEOUT_MS`.
    ProbeBackendPort,
    /// Resolve and create the application data directory.
    PrepareDataDir,
    /// Resolve the backend executable (bundled candidate, then search path).
    ResolveBackendExe,
    /// Spawn the backend as its spawn request says and record the handle.
    SpawnBackend,
    /// Wait `POLL_INTERVAL_MS`, then attempt a connection to the backend
    /// port.
    PollBackendPort,
    /// Startup is complete; hand control to the application.
    Finish,
    /// Abort startup with this error.
    Abort { error: SetupError },
}

/// The supervisor's state: the phase, the remaining poll budget, and
/// whether each service's spawn outcome was recorded.
#[derive(Clone, Copy, Debug, PartialEq, Eq, Structural)]
pub struct Supervisor {
    pub phase: Phase,
    pub polls_left: u8,
    pub ollama_spawned: bool,
    pub backend_spawned: bool,
}

/// The state the supervisor starts in.
pub open spec fn initial_supervisor() -> Supervisor {
    Supervisor { phase: Phase::ProbingOllama, polls_left: 0, ollama_spawned: false, backend_spawned: false }
}

/// The whole transition relation: from a state and a reported outcome to
/// the next state and the next action. An outcome that does not belong to
/// the current phase aborts.
pub open spec fn step_spec(s: Supervisor, e: Event) -> (Supervisor, Action) {
    match (s.phase, e) {
        (Phase::ProbingOllama, Event::OllamaProbe { live }) => if live {
            (Supervisor { phase: Phase::ProbingBackend, ..s }, Action::ProbeBackendPort)
        } else {
            (Supervisor { phase: Phase::ResolvingModelsDir, ..s }, Action::ResolveModelsDir)
        },
        (Phase::ResolvingModelsDir, Event::ModelsDirResolved { found }) => if found {
            (Supervisor { phase: Phase::PreparingCache, ..s }, Action::PrepareCache)
        } else {
            (
                Supervisor { phase: Phase::Failed, ..s },
                Action::Abort { error: SetupError::NoHomeDir },
            )
        },
        (Phase::PreparingCache, Event::CachePrepared { ok }) => if ok {
            (Supervisor { phase: Phase::ResolvingOllamaExe, ..s }, Action::ResolveOllamaExe)
        } else {
            (
                Supervisor { phase: Phase::Failed, ..s },
                Action::Abort { error: SetupError::CachePreparationFailed },
            )
        },
        (Phase::ResolvingOllamaExe, Event::OllamaExeResolved { found }) => if found {
            (Supervisor { phase: Phase::SpawningOllama, ..s }, Action::SpawnOllama)
        } else {
            (
                Supervisor { phase: Phase::Failed, ..s },
                Action::Abort { error: SetupError::NoOllamaExecutable },
            )
        },
        (Phase::SpawningOllama, Event::OllamaSpawned { ok }) => if ok {
            (
                Supervisor { phase: Phase::ProbingBackend, ollama_spawned: true, ..s },
                Action::ProbeBackendPort,
            )
        } else {
            (
                Supervisor { phase: Phase::Failed, ..s },
                Action::Abort { error: SetupError::OllamaSpawnFailed },
            )
        },
        (Phase::ProbingBackend, Event::BackendProbe { live }) => if live {
            (Supervisor { phase: Phase::Done, ..s }, Action::Finish)
        } else {
            (Supervisor { phase: Phase::PreparingDataDir, ..s }, Action::PrepareDataDir)
        },
        (Phase::PreparingDataDir, Event::DataDirPrepared { ok }) => if ok {
            (Supervisor { phase: Phase::ResolvingBackendExe, ..s }, Action::ResolveBackendExe)
        } else {
            (
                Supervisor { phase: Phase::Failed, ..s },
                Action::Abort { error: SetupError::DataDirFailed },
            )
        },
        (Phase::ResolvingBackendExe, Event::BackendExeResolved { found }) => if found {
            (Supervisor { phase: Phase::SpawningBackend, ..s }, Action::SpawnBackend)
        } else {
            (
                Supervisor { phase: Phase::Failed, ..s },
                Action::Abort { error: SetupError::NoBackendExecutable },
            )
        },
        (Phase::SpawningBackend, Event::BackendSpawned { ok }) => if ok {
            (
                Supervisor {
                    phase: Phase::PollingBackend,
                    polls_left: POLL_ATTEMPTS,
                    backend_spawned: true,
                    ..s
                },
                Action::PollBackendPort,
            )
        } else {
            (
                Supervisor { phase: Phase::Failed, ..s },
                Action::Abort { error: SetupError::BackendSpawnFailed },
            )
        },
        (Phase::PollingBackend, Event::BackendPoll { live }) => if live {
            (Supervisor { phase: Phase::Done, ..s }, Action::Finish)
        } else if s.polls_left <= 1 {
            // Poll exhaustion is not an error: startup proceeds and the
            // front end reports connectivity failures itself.
            (Supervisor { phase: Phase::Done, polls_left: 0, ..s }, Action::Finish)
        } else {
            (
                Supervisor { polls_left: (s.polls_left - 1) as u8, ..s },
                Action::PollBackendPort,
            )
        },
        _ => (
            Supervisor { phase: Phase::Failed, ..s },
            Action::Abort { error: SetupError::UnexpectedEvent },
        ),
    }
}

impl Supervisor {
    /// A supervisor about to probe the daemon port.
    pub fn new() -> (r: Supervisor)
        ensures
            r == initial_supervisor(),
    {
        Supervisor {
            phase: Phase::ProbingOllama,
            polls_left: 0,
            ollama_spawned: false,
            backend_spawned: false,
        }
    }

    /// The first action of a run: probe the daemon port.
    pub fn start_action(&self) -> (a: Action)
        requires
            self.phase is ProbingOllama,
        ensures
            a is ProbeOllamaPort,
    {
        Action::ProbeOllamaPort
    }

    /// Advance by one reported outcome, returning the next action.
    pub fn step(&mut self, event: Event) -> (a: Action)
        ensures
            *final(self) == step_spec(*old(self), event).0,
            a == step_spec(*old(self), event).1,
    {
        let next: (Supervisor, Action) = match (self.phase, event) {
            (Phase::ProbingOllama, Event::OllamaProbe { live }) => if live {
                (Supervisor { phase: Phase::ProbingBackend, ..*self }, Action::ProbeBackendPort)
            } else {
                (
                    Supervisor { phase: Phase::ResolvingModelsDir, ..*self },
                    Action::ResolveModelsDir,
                )
            },
            (Phase::ResolvingModelsDir, Event::ModelsDirResolved { found }) => if found {
                (Supervisor { phase: Phase::PreparingCache, ..*self }, Action::PrepareCache)
            } else {
                (
                    Supervisor { phase: Phase::Failed, ..*self },
                    Action::Abort { error: SetupError::NoHomeDir },
                )
            },
            (Phase::PreparingCache, Event::CachePrepared { ok }) => if ok {
                (Supervisor { phase: Phase::ResolvingOllamaExe, ..*self }, Action::ResolveOllamaExe)
            } else {
                (
                    Supervisor { phase: Phase::Failed, ..*self },
                    Action::Abort { error: SetupError::CachePreparationFailed },
                )
            },
            (Phase::ResolvingOllamaExe, Event::OllamaExeResolved { found }) => if found {
                (Supervisor { phase: Phase::SpawningOllama, ..*self }, Action::SpawnOllama)
            } else {
                (
                    Supervisor { phase: Phase::Failed, ..*self },
                    Action::Abort { error: SetupError::NoOllamaExecutable },
                )
            },
            (Phase::SpawningOllama, Event::OllamaSpawned { ok }) => if ok {
                (
                    Supervisor { phase: Phase::ProbingBackend, ollama_spawned: true, ..*self },
                    Action::ProbeBackendPort,
                )
            } else {
                (
                    Supervisor { phase: Phase::Failed, ..*self },
                    Action::Abort { error: SetupError::OllamaSpawnFailed },
                )
            },
            (Phase::ProbingBackend, Event::BackendProbe { live }) => if live {
                (Supervisor { phase: Phase::Done, ..*self }, Action::Finish)
            } else {
                (Supervisor { phase: Phase::PreparingDataDir, ..*self }, Action::PrepareDataDir)
            },
            (Phase::PreparingDataDir, Event::DataDirPrepared { ok }) => if ok {
                (
                    Supervisor { phase: Phase::ResolvingBackendExe, ..*self },
                    Action::ResolveBackendExe,
                )
            } else {
                (
                    Supervisor { phase: Phase::Failed, ..*self },
                    Action::Abort { error: SetupError::DataDirFailed },
                )
            },
            (Phase::ResolvingBackendExe, Event::BackendExeResolved { found }) => if found {
                (Supervisor { phase: Phase::SpawningBackend, ..*self }, Action::SpawnBackend)
            } else {
                (
                    Supervisor { phase: Phase::Failed, ..*self },
                    Action::Abort { error: SetupError::NoBackendExecutable },
                )
            },
            (Phase::SpawningBackend, Event::BackendSpawned { ok }) => if ok {
                (
                    Supervisor {
                        phase: Phase::PollingBackend,
                        polls_left: POLL_ATTEMPTS,
                        backend_spawned: true,
                        ..*self
                    },
                    Action::PollBackendPort,
                )
            } else {
                (
                    Supervisor { phase: Phase::Failed, ..*self },
                    Action::Abort { error: SetupError::BackendSpawnFailed },
                )
            },
            (Phase::PollingBackend, Event::BackendPoll { live }) => if live {
                (Supervisor { phase: Phase::Done, ..*self }, Action::Finish)
            } else if self.polls_left <= 1 {
                (Supervisor { phase: Phase::Done, polls_left: 0, ..*self }, Action::Finish)
            } else {
                (
                    Supervisor { polls_left: self.polls_left - 1, ..*self },
                    Action::PollBackendPort,
                )
            },
            _ => (
                Supervisor { phase: Phase::Failed, ..*self },
                Action::Abort { error: SetupError::UnexpectedEvent },
            ),
        };
        *self = next.0;
        next.1
    }
}

/// The final state and the actions emitted when the supervisor consumes a
/// whole sequence of reported outcomes, in order.
pub open spec fn run_steps(s: Supervisor, events: Seq<Event>) -> (Supervisor, Seq<Action>)
    decreases events.len(),
{
    if events.len() == 0 {
        (s, Seq::<Action>::empty())
    } else {
        let first = step_spec(s, events[0]);
        let rest = run_steps(first.0, events.skip(1));
        (rest.0, seq![first.1] + rest.1)
    }
}

/// How many daemon spawns a sequence of actions orders.
pub open spec fn count_ollama_spawns(acts: Seq<Action>) -> nat
    decreases acts.len(),
{
    if acts.len() == 0 {
        0
    } else {
        (if acts[0] is SpawnOllama {
            1nat
        } else {
            0nat
        }) + count_ollama_spawns(acts.skip(1))
    }
}

/// How many backend spawns a sequence of actions orders.
pub open spec fn count_backend_spawns(acts: Seq<Action>) -> nat
    decreases acts.len(),
{
    if acts.len() == 0 {
        0
    } else {
        (if acts[0] is SpawnBackend {
            1nat
        } else {
            0nat
        }) + count_backend_spawns(acts.skip(1))
    }
}

/// How many daemon spawns a state may still order: one before the daemon
/// spawn is issued, none from then on.
pub open spec fn ollama_spawn_budget(s: Supervisor) -> nat {
    match s.phase {
        Phase::ProbingOllama => 1,
        Phase::ResolvingModelsDir => 1,
        Phase::PreparingCache => 1,
        Phase::ResolvingOllamaExe => 1,
        _ => 0,
    }
}

/// How many backend spawns a state may still order: one before the backend
/// spawn is issued, none from then on.
pub open spec fn backend_spawn_budget(s: Supervisor) -> nat {
    match s.phase {
        Phase::SpawningBackend => 0,
        Phase::PollingBackend => 0,
        Phase::Done => 0,
        Phase::Failed => 0,
        _ => 1,
    }
}

/// Along any sequence of reported outcomes, a state orders no more spawns
/// of either service than its budget allows.
pub proof fn lemma_spawns_within_budget(s: Supervisor, events: Seq<Event>)
    ensures
        count_ollama_spawns(run_steps(s, events).1) <= ollama_spawn_budget(s),
        count_backend_spawns(run_steps(s, events).1) <= backend_spawn_budget(s),
    decreases events.len(),
{
    if events.len() > 0 {
        let first = step_spec(s, events[0]);
        let rest = run_steps(first.0, events.skip(1));
        lemma_spawns_within_budget(first.0, events.skip(1));
        assert((seq![first.1] + rest.1).skip(1) =~= rest.1);
    }
}

/// At most one instance of each managed service is spawned per run: from
/// its initial state, whatever outcomes are reported, the supervisor orders
/// at most one daemon spawn and at most one backend spawn.
pub proof fn lemma_at_most_one_spawn_each(events: Seq<Event>)
    ensures
        count_ollama_spawns(run_steps(initial_supervisor(), events).1) <= 1,
        count_backend_spawns(run_steps(initial_supervisor(), events).1) <= 1,
{
    lemma_spawns_within_budget(initial_supervisor(), events);
}

/// A service already listening on its endpoint is never duplicated: when
/// the daemon probe reports it live, no daemon spawn is ever ordered.
pub proof fn lemma_no_ollama_spawn_when_live(events: Seq<Event>)
    requires
        events.len() > 0,
        events[0] == (Event::OllamaProbe { live: true }),
    ensures
        count_ollama_spawns(run_steps(initial_supervisor(), events).1) == 0,
{
    let first = step_spec(initial_supervisor(), events[0]);
    let rest = run_steps(first.0, events.skip(1));
    lemma_spawns_within_budget(first.0, events.skip(1));
    assert((seq![first.1] + rest.1).skip(1) =~= rest.1);
}

/// How many backend readiness polls a sequence of actions orders.
pub open spec fn count_backend_polls(acts: Seq<Action>) -> nat
    decreases acts.len(),
{
    if acts.len() == 0 {
        0
    } else {
        (if acts[0] is PollBackendPort {
            1nat
        } else {
            0nat
        }) + count_backend_polls(acts.skip(1))
    }
}

/// How many backend readiness polls a state may still order.
pub open spec fn poll_budget(s: Supervisor) -> nat {
    match s.phase {
        Phase::PollingBackend => if s.polls_left >= 1 {
            (s.polls_left - 1) as nat
        } else {
            0
        },
        Phase::Done => 0,
        Phase::Failed => 0,
        _ => POLL_ATTEMPTS as nat,
    }
}

/// Along any sequence of reported outcomes, a state orders no more backend
/// readiness polls than its budget allows.
pub proof fn lemma_polls_within_budget(s: Supervisor, events: Seq<Event>)
    ensures
        count_backend_polls(run_steps(s, events).1) <= poll_budget(s),
    decreases events.len(),
{
    if events.len() > 0 {
        let first = step_spec(s, events[0]);
        let rest = run_steps(first.0, events.skip(1));
        lemma_polls_within_budget(first.0, events.skip(1));
        assert((seq![first.1] + rest.1).skip(1) =~= rest.1);
    }
}

/// The backend readiness wait is bounded: from its initial state, whatever
/// outcomes are reported, the supervisor orders at most `POLL_ATTEMPTS`
/// polls of the backend port, so startup blocks for at most the poll budget.
pub proof fn lemma_poll_attempts_bounded(events: Seq<Event>)
    ensures
        count_backend_polls(run_steps(initial_supervisor(), events).1) <= POLL_ATTEMPTS,
{
    lemma_polls_within_budget(initial_supervisor(), events);
}

/// A backend already listening on its endpoint is never duplicated: when a
/// state probing the backend hears it is live, no backend spawn is ever
/// ordered from there on.
pub proof fn lemma_no_backend_spawn_when_live(s: Supervisor, events: Seq<Event>)
    requires
        s.phase is ProbingBackend,
        events.len() > 0,
        events[0] == (Event::BackendProbe { live: true }),
    ensures
        count_backend_spawns(run_steps(s, events).1) == 0,
{
    let first = step_spec(s, events[0]);
    let rest = run_steps(first.0, events.skip(1));
    lemma_spawns_within_budget(first.0, events.skip(1));
    assert((seq![first.1] + rest.1).skip(1) =~= rest.1);
}

} // verus!
