//! The process-wide engine lifecycle.
//!
//! The native engine wants one global setup call before any other call
//! and one global teardown call when the process exits, however many
//! call sites ask for either. [`EngineLifecycle`] is the once-only gate:
//! each request tells its caller whether the native call is owed now,
//! and after the first request the answer is never again yes. The caller
//! performs the native init when [`EngineLifecycle::ensure_initialized`]
//! says so, registers its exit hook in the same breath, and lets the hook
//! ask [`EngineLifecycle::begin_shutdown`] before the one teardown call.

use vstd::prelude::*;

verus! {

/// The once-only gate around the engine's global setup and teardown.
pub struct EngineLifecycle {
    init_done: bool,
    shutdown_done: bool,
}

/// How many native calls happen over `calls` askings of a gate whose
/// flag starts at `done`, where one asking performs the native call
/// exactly when the flag is false, and always sets the flag. This is the
/// accounting that [`EngineLifecycle::ensure_initialized`] and
/// [`EngineLifecycle::begin_shutdown`] promise call by call.
pub open spec fn runs_performed(done: bool, calls: nat) -> nat
    decreases calls,
{
    if calls == 0 {
        0
    } else {
        (if done {
            0nat
        } else {
            1nat
        }) + runs_performed(true, (calls - 1) as nat)
    }
}

proof fn lemma_no_runs_once_done(calls: nat)
    ensures
        runs_performed(true, calls) == 0,
    decreases calls,
{
    if calls > 0 {
        lemma_no_runs_once_done((calls - 1) as nat);
    }
}

/// Law: initialization is idempotent. However many times the
/// initialization path is taken from however many call sites, a fresh
/// gate lets the native setup run exactly once; and since the exit hook
/// is registered under that same single run, and the hook's own requests
/// go through a fresh gate of the same shape, the native teardown also
/// runs exactly once per process.
pub proof fn lemma_init_once(calls: nat)
    requires
        calls >= 1,
    ensures
        runs_performed(false, calls) == 1,
{
    lemma_no_runs_once_done((calls - 1) as nat);
}

impl EngineLifecycle {
    /// True once the native setup call has been handed out.
    pub closed spec fn initialized(&self) -> bool {
        self.init_done
    }

    /// True once the native teardown call has been handed out.
    pub closed spec fn shut_down(&self) -> bool {
        self.shutdown_done
    }

    /// A fresh gate: no setup and no teardown performed yet.
    pub fn new() -> (l: EngineLifecycle)
        ensures
            !l.initialized(),
            !l.shut_down(),
    {
        EngineLifecycle { init_done: false, shutdown_done: false }
    }

    /// Requests engine setup. Returns true exactly when the caller must
    /// perform the native setup call now — which happens on the first
    /// request and never again. The caller that receives true performs
    /// the call, aborts startup if the engine refuses it, and registers
    /// the process-exit hook that will perform the teardown.
    pub fn ensure_initialized(&mut self) -> (run_init: bool)
        ensures
            run_init == !old(self).initialized(),
            final(self).initialized(),
            final(self).shut_down() == old(self).shut_down(),
    {
        let run_init: bool = !self.init_done;
        self.init_done = true;
        run_init
    }

    /// Requests engine teardown from the exit hook. Returns true exactly
    /// when the caller must perform the native teardown call now — on the
    /// first request and never again. An exit hook has no normal error
    /// path, so a caller whose teardown call fails reports the failure on
    /// a side channel and aborts the process rather than returning.
    pub fn begin_shutdown(&mut self) -> (run_shutdown: bool)
        ensures
            run_shutdown == !old(self).shut_down(),
            final(self).shut_down(),
            final(self).initialized() == old(self).initialized(),
    {
        let run_shutdown: bool = !self.shutdown_done;
        self.shutdown_done = true;
        run_shutdown
    }
}

} // verus!
