//! What the supervisor launches: executable, arguments and environment for
//! each managed service, pinned value by value.
//!
//! The caller spawns exactly what a `SpawnSpec` holds, with the child's
//! standard I/O streams discarded, and records the handle in the registry.

use vstd::prelude::*;
use vstd::string::StringExecFns;

verus! {

/// A fully determined spawn request: the executable to run, its arguments in
/// order, and the environment variables to set on the child.
#[derive(Debug)]
pub struct SpawnSpec {
    pub exe: String,
    pub args: Vec<String>,
    pub env: Vec<(String, String)>,
}

/// The spawn request for the model-inference daemon: `serve`, bound to the
/// loopback daemon endpoint, with the model cache pinned to the given
/// directory.
pub fn ollama_spawn_spec(exe: String, models_dir: String) -> (r: SpawnSpec)
    ensures
        r.exe@ == exe@,
        r.args@.len() == 1,
        r.args@[0]@ == "serve"@,
        r.env@.len() == 2,
        r.env@[0].0@ == "OLLAMA_HOST"@,
        r.env@[0].1@ == "127.0.0.1:11434"@,
        r.env@[1].0@ == "OLLAMA_MODELS"@,
        r.env@[1].1@ == models_dir@,
{
    let mut args: Vec<String> = Vec::new();
    args.push(String::from_str("serve"));
    let mut env: Vec<(String, String)> = Vec::new();
    env.push((String::from_str("OLLAMA_HOST"), String::from_str("127.0.0.1:11434")));
    env.push((String::from_str("OLLAMA_MODELS"), models_dir));
    SpawnSpec { exe, args, env }
}

/// The spawn request for the backend API: host and port arguments for the
/// loopback backend endpoint, the data directory handed over by environment,
/// and the daemon's base URL pointing at the supervised daemon endpoint.
pub fn backend_spawn_spec(exe: String, data_dir: String) -> (r: SpawnSpec)
    ensures
        r.exe@ == exe@,
        r.args@.len() == 4,
        r.args@[0]@ == "--host"@,
        r.args@[1]@ == "127.0.0.1"@,
        r.args@[2]@ == "--port"@,
        r.args@[3]@ == "8000"@,
        r.env@.len() == 2,
        r.env@[0].0@ == "PDC_DATA_DIR"@,
        r.env@[0].1@ == data_dir@,
        r.env@[1].0@ == "OLLAMA_BASE_URL"@,
        r.env@[1].1@ == "http://127.0.0.1:11434"@,
{
    let mut args: Vec<String> = Vec::new();
    args.push(String::from_str("--host"));
    args.push(String::from_str("127.0.0.1"));
    args.push(String::from_str("--port"));
    args.push(String::from_str("8000"));
    let mut env: Vec<(String, String)> = Vec::new();
    env.push((String::from_str("PDC_DATA_DIR"), data_dir));
    env.push((String::from_str("OLLAMA_BASE_URL"), String::from_str("http://127.0.0.1:11434")));
    SpawnSpec { exe, args, env }
}

} // verus!
