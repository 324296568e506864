//! Resolution of the directories and executables the supervisor uses.
//!
//! Paths are held as plain strings built from a caller-supplied separator, so
//! every join is verified character for character. The only outside call is
//! the lookup of the user's home directory; everything after it is computed
//! and proved here.

use vstd::prelude::*;
use vstd::string::StringExecFns;

verus! {

/// The model-cache directory for a given home directory:
/// `<home><sep>.ollama<sep>models`.
pub open spec fn models_dir_view(home: Seq<char>, sep: Seq<char>) -> Seq<char> {
    home + sep + ".ollama"@ + sep + "models"@
}

/// Relies on dirs::home_dir: the user's home directory, read from the
/// environment (or the user database). The value depends on the environment
/// alone, so nothing is promised of it; callers work with whatever came back.
#[verifier::external_body]
fn home_dir_string() -> (r: Option<String>) {
    dirs::home_dir().map(|p| p.to_string_lossy().to_string())
}

/// Build the model-cache directory path under the given home directory,
/// using the given path separator.
pub fn models_dir_for_home(home: &str, sep: &str) -> (r: String)
    ensures
        r@ == models_dir_view(home@, sep@),
{
    let mut s = String::from_str(home);
    s.append(sep);
    s.append(".ollama");
    s.append(sep);
    s.append("models");
    proof {
        assert(s@ =~= models_dir_view(home@, sep@));
    }
    s
}

/// Resolve the model-cache directory from the environment's home directory.
/// Returns `None` exactly when no home directory could be found; a returned
/// path is always the cache directory of some home directory.
pub fn official_ollama_models_dir(sep: &str) -> (r: Option<String>)
    ensures
        r matches Some(p) ==> exists|home: Seq<char>| p@ == models_dir_view(home, sep@),
{
    match home_dir_string() {
        None => None,
        Some(home) => {
            let p = models_dir_for_home(home.as_str(), sep);
            proof {
                assert(p@ == models_dir_view(home@, sep@));
            }
            Some(p)
        },
    }
}

/// The platform file name of an executable: the base name, with `.exe`
/// appended on Windows.
pub fn executable_file_name(base: &str, windows: bool) -> (r: String)
    ensures
        windows ==> r@ == base@ + ".exe"@,
        !windows ==> r@ == base@,
{
    let mut s = String::from_str(base);
    if windows {
        s.append(".exe");
    }
    s
}

/// The bundled candidate for an executable: the file of the given name next
/// to the application's own executable.
pub fn bundled_candidate(exe_dir: &str, file_name: &str, sep: &str) -> (r: String)
    ensures
        r@ == exe_dir@ + sep@ + file_name@,
{
    let mut s = String::from_str(exe_dir);
    s.append(sep);
    s.append(file_name);
    proof {
        assert(s@ =~= exe_dir@ + sep@ + file_name@);
    }
    s
}

/// Pick the executable to launch: the bundled candidate when it exists on
/// disk, otherwise the bare file name, which the system's executable search
/// resolves at spawn time.
pub fn choose_executable(candidate: &str, candidate_exists: bool, file_name: &str) -> (r: String)
    ensures
        candidate_exists ==> r@ == candidate@,
        !candidate_exists ==> r@ == file_name@,
{
    if candidate_exists {
        String::from_str(candidate)
    } else {
        String::from_str(file_name)
    }
}

} // verus!
