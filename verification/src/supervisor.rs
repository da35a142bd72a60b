//! The process supervisor: a state machine over the single backend process
//! slot, with idempotent start and stop.
//!
//! The supervisor decides; the surrounding runtime performs the decided
//! action (spawn, kill) and reports its outcome back through the `on_*`
//! methods. Holding the supervisor across one whole start or stop sequence
//! serializes the transitions, so a second caller can never reach the spawn
//! while a process occupies the slot.

use vstd::prelude::*;
use crate::state::{with_process, without_process, AppState};

verus! {

/// Errors of the backend lifecycle and of the connection to the backend.
#[derive(Debug)]
pub enum JuliaError {
    StartError(String),
    NotRunning,
    ConnectionError(String),
}

/// The lifecycle phases of the supervised backend process.
pub enum Phase {
    Stopped,
    Starting,
    Running,
    Stopping,
}

/// What a caller of `begin_start` must do next.
pub enum StartStep {
    /// The slot is occupied: the start is a successful no-op.
    AlreadyUp,
    /// The slot is free and now reserved: spawn the process and report
    /// through `on_spawned` or `on_spawn_failed`.
    Spawn,
}

/// What a caller of `begin_stop` must do next.
pub enum StopStep {
    /// Nothing was running: the stop is a successful no-op.
    Noop,
    /// Kill the process with this pid, then report through `finish_stop`.
    Kill(u32),
}

/// Owner of the single process slot.
pub struct Supervisor {
    pub phase: Phase,
    /// The pid of the process occupying the slot, if any.
    pub slot: Option<u32>,
}

impl Supervisor {
    /// A stopped supervisor records no process, and a running one records
    /// exactly one.
    pub open spec fn wf(self) -> bool {
        &&& (self.phase is Stopped ==> self.slot is None)
        &&& (self.phase is Running ==> self.slot is Some)
        &&& (self.phase is Stopping ==> self.slot is Some)
    }

    /// The shared state mirrors the slot: same pid, and the running flag
    /// set exactly while a process occupies the slot.
    pub open spec fn mirrors(self, st: AppState) -> bool {
        &&& st.julia_pid == self.slot
        &&& st.julia_running == (self.slot is Some)
    }
}

/// The supervisor as it stands before any start: stopped, slot free.
pub open spec fn stopped_supervisor() -> Supervisor {
    Supervisor { phase: Phase::Stopped, slot: None }
}

/// The start decision: an occupied slot makes the start a successful no-op;
/// a free slot is reserved for exactly one spawn.
pub open spec fn spec_begin_start(s: Supervisor) -> (Supervisor, StartStep) {
    if s.slot is Some {
        (s, StartStep::AlreadyUp)
    } else {
        (Supervisor { phase: Phase::Starting, slot: None }, StartStep::Spawn)
    }
}

/// The slot after a spawn succeeded with the given pid.
pub open spec fn spec_on_spawned(s: Supervisor, pid: u32) -> Supervisor {
    Supervisor { phase: Phase::Starting, slot: Some(pid) }
}

/// The slot after the spawn failed: back to stopped, slot free.
pub open spec fn spec_on_spawn_failed(s: Supervisor) -> Supervisor {
    stopped_supervisor()
}

/// The slot once the readiness probe succeeded.
pub open spec fn spec_on_ready(s: Supervisor) -> Supervisor {
    Supervisor { phase: Phase::Running, slot: s.slot }
}

/// The stop decision: an empty slot makes the stop a successful no-op;
/// an occupied one is to be killed.
pub open spec fn spec_begin_stop(s: Supervisor) -> (Supervisor, StopStep) {
    match s.slot {
        None => (stopped_supervisor(), StopStep::Noop),
        Some(pid) => (Supervisor { phase: Phase::Stopping, slot: Some(pid) }, StopStep::Kill(pid)),
    }
}

impl Supervisor {
    pub fn new() -> (s: Supervisor)
        ensures
            s == stopped_supervisor(),
            s.wf(),
    {
        Supervisor { phase: Phase::Stopped, slot: None }
    }

    /// First half of `start`: decide between the idempotent no-op and a
    /// spawn. At most one caller can ever be told to spawn while the slot
    /// is occupied.
    pub fn begin_start(&mut self) -> (step: StartStep)
        requires
            old(self).wf(),
        ensures
            final(self).wf(),
            (*final(self), step) == spec_begin_start(*old(self)),
            old(self).slot is Some ==> *final(self) == *old(self) && step is AlreadyUp,
            old(self).slot is None ==> final(self).phase is Starting && final(self).slot is None
                && step is Spawn,
    {
        match self.slot {
            Some(_) => StartStep::AlreadyUp,
            None => {
                self.phase = Phase::Starting;
                StartStep::Spawn
            },
        }
    }

    /// The spawn succeeded: record the live process in the slot and in the
    /// shared state, before readiness is known.
    pub fn on_spawned(&mut self, st: &mut AppState, pid: u32)
        requires
            old(self).phase is Starting,
            old(self).slot is None,
        ensures
            *final(self) == spec_on_spawned(*old(self), pid),
            final(self).wf(),
            *final(st) == with_process(*old(st), pid),
            final(self).mirrors(*final(st)),
            final(st).process_mirror_wf(),
            final(st).workspaces_wf() == old(st).workspaces_wf(),
    {
        self.slot = Some(pid);
        st.julia_running = true;
        st.julia_pid = Some(pid);
    }

    /// The spawn failed: the slot stays free, the shared state untouched,
    /// and the caller receives the spawn error.
    pub fn on_spawn_failed(&mut self, message: String) -> (r: Result<(), JuliaError>)
        requires
            old(self).phase is Starting,
            old(self).slot is None,
        ensures
            *final(self) == spec_on_spawn_failed(*old(self)),
            final(self).wf(),
            r matches Err(e) && e matches JuliaError::StartError(m) && m == message,
    {
        self.phase = Phase::Stopped;
        Err(JuliaError::StartError(message))
    }

    /// The readiness probe succeeded: the backend is serving.
    pub fn on_ready(&mut self) -> (r: Result<(), JuliaError>)
        requires
            old(self).phase is Starting,
            old(self).slot is Some,
        ensures
            *final(self) == spec_on_ready(*old(self)),
            final(self).wf(),
            final(self).slot == old(self).slot,
            r is Ok,
    {
        self.phase = Phase::Running;
        Ok(())
    }

    /// The readiness probe timed out. The process is deliberately left
    /// running and the slot keeps it, so a later stop can reach it; only
    /// the caller of `start` learns that the backend is not yet serving.
    pub fn on_probe_timeout(&mut self, message: String) -> (r: Result<(), JuliaError>)
        requires
            old(self).phase is Starting,
            old(self).slot is Some,
        ensures
            *final(self) == *old(self),
            r matches Err(e) && e matches JuliaError::ConnectionError(m) && m == message,
    {
        Err(JuliaError::ConnectionError(message))
    }

    /// First half of `stop`: decide between the no-op and a kill.
    pub fn begin_stop(&mut self) -> (step: StopStep)
        requires
            old(self).wf(),
        ensures
            final(self).wf(),
            (*final(self), step) == spec_begin_stop(*old(self)),
            old(self).slot is None ==> *final(self) == stopped_supervisor() && step is Noop,
            old(self).slot matches Some(pid) ==> final(self).slot == old(self).slot
                && step == StopStep::Kill(pid),
    {
        match self.slot {
            None => {
                self.phase = Phase::Stopped;
                StopStep::Noop
            },
            Some(pid) => {
                self.phase = Phase::Stopping;
                StopStep::Kill(pid)
            },
        }
    }

    /// Second half of `stop`: clear the slot and the shared state
    /// unconditionally, even when the kill reported failure, so stale
    /// state can never block a future start.
    pub fn finish_stop(&mut self, st: &mut AppState, kill_error: Option<String>) -> (r: Result<
        (),
        JuliaError,
    >)
        ensures
            *final(self) == stopped_supervisor(),
            final(self).wf(),
            *final(st) == without_process(*old(st)),
            final(self).mirrors(*final(st)),
            final(st).process_mirror_wf(),
            final(st).workspaces_wf() == old(st).workspaces_wf(),
            kill_error is None <==> r is Ok,
            kill_error matches Some(m) ==> (r matches Err(e) && e matches JuliaError::StartError(
                em,
            ) && em == m),
    {
        self.phase = Phase::Stopped;
        self.slot = None;
        st.julia_running = false;
        st.julia_pid = None;
        match kill_error {
            None => Ok(()),
            Some(m) => Err(JuliaError::StartError(m)),
        }
    }
}

/// True exactly when a process occupies the slot: the process exists,
/// whether or not the backend has confirmed readiness.
pub fn is_julia_running(s: &Supervisor) -> (r: bool)
    ensures
        r == (s.slot is Some),
{
    s.slot.is_some()
}

/// Starting is idempotent: while a process occupies the slot, a start
/// changes nothing and asks for no spawn.
pub proof fn lemma_start_is_idempotent(s: Supervisor)
    requires
        s.wf(),
        s.slot is Some,
    ensures
        spec_begin_start(s).0 == s,
        spec_begin_start(s).1 is AlreadyUp,
{
}

/// Two starts spawn once: after a start that reached its spawn, a second
/// start is told the backend is already up and leaves the slot alone.
pub proof fn lemma_double_start_spawns_once(s0: Supervisor, pid: u32)
    requires
        s0.wf(),
        s0.slot is None,
    ensures
        ({
            let (s1, step1) = spec_begin_start(s0);
            let s2 = spec_on_spawned(s1, pid);
            let (s3, step2) = spec_begin_start(s2);
            step1 is Spawn && step2 is AlreadyUp && s3 == s2
        }),
{
}

/// Stopping is idempotent: a completed stop — the no-op, or a kill
/// followed by `finish_stop` — always leaves the stopped supervisor, and
/// a stop taken from there is a no-op that changes nothing and carries no
/// kill whose failure could raise an error.
pub proof fn lemma_stop_after_stop_is_noop(s0: Supervisor)
    requires
        s0.wf(),
    ensures
        spec_begin_stop(s0).1 is Noop ==> spec_begin_stop(s0).0 == stopped_supervisor(),
        spec_begin_stop(stopped_supervisor()).0 == stopped_supervisor(),
        spec_begin_stop(stopped_supervisor()).1 is Noop,
{
}

/// After a successful start the status reports a running process under the
/// spawned (positive) pid; after a stop it reports no process at all.
pub proof fn lemma_status_reflects_lifecycle(st: AppState, pid: u32)
    requires
        pid > 0,
    ensures
        with_process(st, pid).julia_running == true,
        with_process(st, pid).julia_pid matches Some(p) && p > 0,
        without_process(with_process(st, pid)).julia_running == false,
        without_process(with_process(st, pid)).julia_pid is None,
{
}

} // verus!
