//! The watcher handle: the externally visible resource that owns the worker
//! thread's lifecycle, with a teardown state machine shared by the explicit
//! `stop` call and the caller-liveness signal.
//!
//! The unverified shell holds the real running flag and thread handle behind
//! one exclusive lock; while holding that lock it mirrors the transitions
//! decided here and performs the one action they prescribe, so the worker is
//! joined exactly once whichever teardown path fires first.

use vstd::prelude::*;

use crate::session::StartupOutcome;

verus! {

/// A start-time failure, returned synchronously by the starting call; no
/// handle is produced and no resource is left behind.
#[derive(Clone, Copy, Debug, PartialEq, Eq, Structural)]
pub enum StartError {
    /// Opening the kernel change-notification handle failed.
    InitFailed,
    /// Registering the watch on the requested path failed.
    WatchRegistrationFailed,
    /// The caller supplied no usable identity for event delivery.
    NoCallerIdentity,
    /// The session ended, or the handshake channel closed, before a usable
    /// outcome arrived.
    RuntimeError,
}

/// The lock-protected lifecycle state of one watcher handle.
///
/// `running` is the flag the worker loop reads; `worker_active` says whether
/// a worker thread has not yet been joined. Once a stop clears both, the
/// handle is spent: no transition leaves the stopped state.
#[derive(Clone, Copy, Debug, PartialEq, Eq, Structural)]
pub struct WatcherState {
    pub running: bool,
    pub worker_active: bool,
}

/// The one outside action a teardown prescribes.
#[derive(Clone, Copy, Debug, PartialEq, Eq, Structural)]
pub enum TeardownAction {
    /// A worker thread is still unjoined: block until it exits.
    JoinWorker,
    /// Nothing to do: the worker was already joined or never existed.
    NoWorker,
}

/// The teardown transition: clear the running flag, give up the worker, and
/// prescribe a join exactly when a worker was still unjoined.
pub open spec fn spec_stop(s: WatcherState) -> (WatcherState, TeardownAction) {
    (
        WatcherState { running: false, worker_active: false },
        if s.worker_active {
            TeardownAction::JoinWorker
        } else {
            TeardownAction::NoWorker
        },
    )
}

impl WatcherState {
    /// The state a successful start installs: the flag set and a freshly
    /// spawned, unjoined worker.
    pub fn new_running() -> (s: Self)
        ensures
            s == (WatcherState { running: true, worker_active: true }),
    {
        WatcherState { running: true, worker_active: true }
    }

    /// Stop the watcher: clear the running flag and say whether the caller
    /// must join the worker thread. Never fails, and is idempotent: on an
    /// already-stopped handle it changes nothing and prescribes no join.
    pub fn stop(&mut self) -> (a: TeardownAction)
        ensures
            (*final(self), a) == spec_stop(*old(self)),
            !final(self).running,
            !final(self).worker_active,
            a is JoinWorker <==> old(self).worker_active,
    {
        self.running = false;
        let had_worker = self.worker_active;
        self.worker_active = false;
        if had_worker {
            TeardownAction::JoinWorker
        } else {
            TeardownAction::NoWorker
        }
    }

    /// Teardown fired by the caller's liveness signal: identical in effect
    /// to an explicit `stop`, so whichever of the two paths runs first joins
    /// the worker and the other finds nothing left to do.
    pub fn on_liveness_signal(&mut self) -> (a: TeardownAction)
        ensures
            (*final(self), a) == spec_stop(*old(self)),
            !final(self).running,
            !final(self).worker_active,
            a is JoinWorker <==> old(self).worker_active,
    {
        self.stop()
    }
}

/// Resolve the starting call from what the handshake produced: `None` when
/// the channel closed without a message (the session crashed before
/// signaling). Only `Started` yields a handle state; every other outcome is
/// returned as the matching start error, and no state is produced.
pub fn resolve_start(received: Option<StartupOutcome>) -> (r: Result<WatcherState, StartError>)
    ensures
        received == Some(StartupOutcome::Started) <==> (r matches Ok(s) && s == (WatcherState {
            running: true,
            worker_active: true,
        })),
        received == Some(StartupOutcome::InitFailed) <==> r == Err::<WatcherState, _>(
            StartError::InitFailed,
        ),
        received == Some(StartupOutcome::WatchRegistrationFailed) <==> r == Err::<
            WatcherState,
            _,
        >(StartError::WatchRegistrationFailed),
        (received == Some(StartupOutcome::RuntimeError) || received is None) <==> r == Err::<
            WatcherState,
            _,
        >(StartError::RuntimeError),
{
    match received {
        Some(StartupOutcome::Started) => Ok(WatcherState::new_running()),
        Some(StartupOutcome::InitFailed) => Err(StartError::InitFailed),
        Some(StartupOutcome::WatchRegistrationFailed) => Err(StartError::WatchRegistrationFailed),
        Some(StartupOutcome::RuntimeError) => Err(StartError::RuntimeError),
        None => Err(StartError::RuntimeError),
    }
}

/// Idempotent stop: a second teardown — explicit `stop` after `stop`, or
/// either order of `stop` and the liveness signal — leaves the state exactly
/// as the first did and never prescribes a second join.
pub proof fn lemma_stop_idempotent(s: WatcherState)
    ensures
        spec_stop(spec_stop(s).0).0 == spec_stop(s).0,
        spec_stop(spec_stop(s).0).1 is NoWorker,
{
}

/// Join exactly once: a teardown prescribes the join only while a worker is
/// still unjoined, and leaves none behind — so over any sequence of
/// teardowns, only the first can join, and afterwards no worker thread
/// remains.
pub proof fn lemma_join_exactly_once(s: WatcherState)
    ensures
        spec_stop(s).1 is JoinWorker <==> s.worker_active,
        !spec_stop(s).0.worker_active,
        !spec_stop(s).0.running,
{
}

} // verus!
