use vstd::prelude::*;

use crate::health::prepare_backend_environment;
use crate::state::{is_backend_already_ready, should_spawn_sidecar, spawn_allowed, update_sidecar_state, SidecarState};
use crate::wait::{lemma_port_release_run, port_release_run, released_at, SupervisorError};

verus! {

/// What the caller reports to the spawn sequence.
pub enum SpawnEvent<C> {
    /// A spawn was requested.
    Start,
    /// Whether the recorded pid was found alive.
    Liveness(bool),
    /// Whether the backend answered its health probe.
    Health(bool),
    /// Whether the backend port was found free.
    PortProbed(bool),
    /// How reaping the port and waiting for its release ended.
    Reaped(Result<(), SupervisorError>),
    /// The launched child and its pid, or `None` when the launch failed.
    Launched(Option<(C, u32)>),
}

/// What the spawn sequence asks of the caller next.
#[derive(Debug, PartialEq, Eq, Structural, Clone, Copy)]
pub enum SpawnAction {
    /// Probe whether this pid is alive, and report `Liveness`.
    ProbeLiveness(u32),
    /// Probe the backend's health, and report `Health`.
    ProbeHealth,
    /// Probe the backend port, and report `PortProbed`.
    ProbePort,
    /// Reap the port's occupant, wait for its release, and report `Reaped`.
    ReapPort,
    /// Launch the backend, and report `Launched`.
    Launch,
    /// Start consuming the events of the child with this pid; the sequence is over.
    Monitor(u32),
    /// Shutdown was requested while the child with this pid was being launched:
    /// the child is in the record, to be taken out and killed; the sequence is over.
    Discard(u32),
    /// The sequence is over: nothing to spawn now, or the backend already serves.
    Done,
    /// The sequence failed with this error.
    Failed(SupervisorError),
}

/// The next request of the spawn sequence, from the spawn gate with the given liveness.
pub open spec fn after_gate<C>(s: SidecarState<C>, pid_running: bool, now: u64) -> SpawnAction {
    if spawn_allowed(s, pid_running, now) {
        SpawnAction::ProbeHealth
    } else {
        SpawnAction::Done
    }
}

/// The record and the request that follow `event` at time `now`.
pub open spec fn spawn_step<C>(s: SidecarState<C>, event: SpawnEvent<C>, now: u64) -> (SidecarState<C>, SpawnAction) {
    match event {
        SpawnEvent::Start => (s, if s.should_run && s.pid.is_some() {
            SpawnAction::ProbeLiveness(s.pid.unwrap())
        } else {
            after_gate(s, false, now)
        }),
        SpawnEvent::Liveness(running) => (s, after_gate(s, running, now)),
        SpawnEvent::Health(healthy) => if !s.should_run {
            (s, SpawnAction::Done)
        } else if healthy {
            (SidecarState { is_ready: true, ..s }, SpawnAction::Done)
        } else {
            (s, SpawnAction::ProbePort)
        },
        SpawnEvent::PortProbed(free) => (s, if !s.should_run {
            SpawnAction::Done
        } else if free {
            SpawnAction::Launch
        } else {
            SpawnAction::ReapPort
        }),
        SpawnEvent::Reaped(res) => (s, if !s.should_run {
            SpawnAction::Done
        } else {
            match res {
                Ok(()) => SpawnAction::Launch,
                Err(e) => SpawnAction::Failed(e),
            }
        }),
        SpawnEvent::Launched(None) => (s, SpawnAction::Failed(SupervisorError::SpawnFailure)),
        SpawnEvent::Launched(Some((child, pid))) => (
            SidecarState { child: Some(child), is_ready: false, pid: Some(pid), spawn_time: Some(now), ..s },
            if s.should_run { SpawnAction::Monitor(pid) } else { SpawnAction::Discard(pid) },
        ),
    }
}

/// One step of the spawn sequence at time `now`: gate, already-healthy check,
/// reaping of a stale port occupant, launch, and record of the new child.
///
/// Once shutdown has been requested the sequence asks for no further probe,
/// reaping or launch.
pub fn spawn_sidecar_step<C>(state: &mut SidecarState<C>, event: SpawnEvent<C>, now: u64) -> (r: SpawnAction)
    ensures
        (*final(state), r) == spawn_step(*old(state), event, now),
{
    match event {
        SpawnEvent::Start => {
            if state.should_run {
                if let Some(pid) = state.pid {
                    return SpawnAction::ProbeLiveness(pid);
                }
            }
            if should_spawn_sidecar(state, false, now) {
                SpawnAction::ProbeHealth
            } else {
                SpawnAction::Done
            }
        },
        SpawnEvent::Liveness(running) => {
            if should_spawn_sidecar(state, running, now) {
                SpawnAction::ProbeHealth
            } else {
                SpawnAction::Done
            }
        },
        SpawnEvent::Health(healthy) => {
            if !state.should_run {
                return SpawnAction::Done;
            }
            if is_backend_already_ready(state, healthy) {
                SpawnAction::Done
            } else {
                SpawnAction::ProbePort
            }
        },
        SpawnEvent::PortProbed(free) => {
            if !state.should_run {
                SpawnAction::Done
            } else if prepare_backend_environment(free) {
                SpawnAction::ReapPort
            } else {
                SpawnAction::Launch
            }
        },
        SpawnEvent::Reaped(res) => {
            if !state.should_run {
                return SpawnAction::Done;
            }
            match res {
                Ok(()) => SpawnAction::Launch,
                Err(e) => SpawnAction::Failed(e),
            }
        },
        SpawnEvent::Launched(None) => SpawnAction::Failed(SupervisorError::SpawnFailure),
        SpawnEvent::Launched(Some((child, pid))) => {
            update_sidecar_state(state, child, pid, now);
            if state.should_run {
                SpawnAction::Monitor(pid)
            } else {
                SpawnAction::Discard(pid)
            }
        },
    }
}

/// Once shutdown has been requested, no event leads the spawn sequence to
/// probe, reap or launch, and the record changes only to keep a child that was
/// already launched.
pub proof fn lemma_no_spawn_after_shutdown<C>(s: SidecarState<C>, event: SpawnEvent<C>, now: u64)
    requires
        !s.should_run,
    ensures
        !(spawn_step(s, event, now).1 is ProbeLiveness),
        !(spawn_step(s, event, now).1 is ProbeHealth),
        !(spawn_step(s, event, now).1 is ProbePort),
        !(spawn_step(s, event, now).1 is ReapPort),
        !(spawn_step(s, event, now).1 is Launch),
        !(spawn_step(s, event, now).1 is Monitor),
        !(event is Launched) ==> spawn_step(s, event, now).0 == s,
{
}

/// A port found taken while the backend is unhealthy is reaped; the spawn then
/// goes on to launch exactly when the release wait saw the port free in time,
/// and otherwise fails with `PortReleaseTimeout`.
pub proof fn lemma_stale_port_reaped<C>(s: SidecarState<C>, probes: Seq<(bool, u64)>, now: u64)
    requires
        s.should_run,
        port_release_run(probes).is_some(),
    ensures
        spawn_step(s, SpawnEvent::Health(false), now) == (s, SpawnAction::ProbePort),
        spawn_step(s, SpawnEvent::PortProbed(false), now) == (s, SpawnAction::ReapPort),
        spawn_step(s, SpawnEvent::Reaped(port_release_run(probes).unwrap()), now) == (s, if exists|i: int| released_at(probes, i) {
            SpawnAction::Launch
        } else {
            SpawnAction::Failed(SupervisorError::PortReleaseTimeout)
        }),
{
    lemma_port_release_run(probes);
    let res = port_release_run(probes).unwrap();
    assert(port_release_run(probes) == Some(res));
    match res {
        Ok(u) => {
            assert(u == ());
            assert(res == Ok::<(), SupervisorError>(()));
            assert(port_release_run(probes) == Some(Ok::<(), SupervisorError>(())));
        },
        Err(e) => {
            assert(port_release_run(probes) != Some(Ok::<(), SupervisorError>(())));
            assert(e == SupervisorError::PortReleaseTimeout);
        },
    }
}

} // verus!
