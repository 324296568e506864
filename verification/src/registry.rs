//! The sidecar registry: which child-process handles the supervisor owns.
//!
//! Handles are plain identifiers chosen by the caller (it keeps the real
//! child processes keyed by them). The registry holds at most one handle per
//! managed service; teardown hands every recorded handle back for the caller
//! to terminate and reap, best-effort, and afterwards records nothing.

use vstd::prelude::*;

verus! {

/// The handles the supervisor recorded: at most one for the inference
/// daemon, at most one for the backend API.
pub struct SidecarRegistry {
    pub ollama: Option<u64>,
    pub backend: Option<u64>,
}

impl SidecarRegistry {
    /// All recorded handles, daemon first.
    pub open spec fn recorded(self) -> Seq<u64> {
        (match self.ollama {
            Some(h) => seq![h],
            None => Seq::<u64>::empty(),
        }) + (match self.backend {
            Some(h) => seq![h],
            None => Seq::<u64>::empty(),
        })
    }

    /// A fresh registry records nothing.
    pub fn new() -> (r: SidecarRegistry)
        ensures
            r.ollama is None,
            r.backend is None,
            r.recorded() == Seq::<u64>::empty(),
    {
        let r = SidecarRegistry { ollama: None, backend: None };
        proof {
            assert(r.recorded() =~= Seq::<u64>::empty());
        }
        r
    }

    /// Record the daemon's handle. At most one daemon instance is spawned
    /// per run, so no handle may be recorded yet.
    pub fn record_ollama(&mut self, handle: u64)
        requires
            old(self).ollama is None,
        ensures
            final(self).ollama == Some(handle),
            final(self).backend == old(self).backend,
    {
        self.ollama = Some(handle);
    }

    /// Record the backend's handle. At most one backend instance is spawned
    /// per run, so no handle may be recorded yet.
    pub fn record_backend(&mut self, handle: u64)
        requires
            old(self).backend is None,
        ensures
            final(self).backend == Some(handle),
            final(self).ollama == old(self).ollama,
    {
        self.backend = Some(handle);
    }

    /// Tear the registry down: afterwards it records no handle at all, and
    /// the returned handles are exactly those it recorded, daemon first.
    /// The caller terminates and reaps each returned handle, swallowing
    /// failures, since the application is already exiting.
    pub fn teardown(&mut self) -> (victims: Vec<u64>)
        ensures
            final(self).ollama is None,
            final(self).backend is None,
            final(self).recorded() == Seq::<u64>::empty(),
            victims@ == old(self).recorded(),
    {
        let mut victims: Vec<u64> = Vec::new();
        if let Some(h) = self.ollama {
            victims.push(h);
        }
        self.ollama = None;
        if let Some(h) = self.backend {
            victims.push(h);
        }
        self.backend = None;
        proof {
            assert(self.recorded() =~= Seq::<u64>::empty());
            assert(victims@ =~= old(self).recorded());
        }
        victims
    }
}

} // verus!
