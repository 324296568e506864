//! Startup supervisor for a desktop application's sidecar processes.
//!
//! The library holds the decision logic of the supervisor: which service to
//! probe, whether to seed the model cache, what to spawn and with which
//! arguments and environment, and what teardown must terminate. The
//! surrounding process (see `app/`) performs the actual I/O — TCP probes,
//! filesystem reads and writes, process spawning — and feeds the observed
//! results back in as plain values.

use vstd::prelude::*;

mod paths;
mod registry;
mod seeding;
mod spawn;
mod supervisor;

pub use paths::bundled_candidate;
pub use paths::choose_executable;
pub use paths::executable_file_name;
pub use paths::models_dir_for_home;
pub use paths::models_dir_view;
pub use paths::official_ollama_models_dir;
pub use registry::SidecarRegistry;
pub use seeding::CopyStep;
pub use seeding::EntryKind;
pub use seeding::FsEntry;
pub use seeding::SeedDecision;
pub use seeding::copy_plan;
pub use seeding::lemma_seed_idempotent;
pub use seeding::lemma_user_data_untouched;
pub use seeding::seed_decision;
pub use seeding::seed_decision_spec;
pub use seeding::step_matches_entry;
pub use spawn::SpawnSpec;
pub use spawn::backend_spawn_spec;
pub use spawn::ollama_spawn_spec;
pub use supervisor::Action;
pub use supervisor::Event;
pub use supervisor::POLL_ATTEMPTS;
pub use supervisor::POLL_INTERVAL_MS;
pub use supervisor::PROBE_TIMEOUT_MS;
pub use supervisor::Phase;
pub use supervisor::SetupError;
pub use supervisor::Supervisor;
pub use supervisor::backend_spawn_budget;
pub use supervisor::count_backend_polls;
pub use supervisor::count_backend_spawns;
pub use supervisor::count_ollama_spawns;
pub use supervisor::initial_supervisor;
pub use supervisor::lemma_at_most_one_spawn_each;
pub use supervisor::lemma_no_backend_spawn_when_live;
pub use supervisor::lemma_no_ollama_spawn_when_live;
pub use supervisor::lemma_poll_attempts_bounded;
pub use supervisor::lemma_polls_within_budget;
pub use supervisor::lemma_spawns_within_budget;
pub use supervisor::ollama_spawn_budget;
pub use supervisor::poll_budget;
pub use supervisor::run_steps;
pub use supervisor::step_spec;

verus! {

/// Loopback port of the local model-inference daemon.
pub const OLLAMA_PORT: u16 = 11434;

/// Loopback port of the application backend API.
pub const BACKEND_PORT: u16 = 8000;

} // verus!
