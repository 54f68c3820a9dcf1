use vstd::prelude::*;

verus! {

/// How long a stale occupant has to release the backend port, in milliseconds.
pub const PORT_CLEANUP_TIMEOUT_MS: u64 = 3000;

/// Pause between two probes of the backend port, in milliseconds.
pub const PORT_CHECK_INTERVAL_MS: u64 = 100;

/// Pause between two health probes while waiting for readiness, in milliseconds.
pub const BACKEND_READY_CHECK_INTERVAL_MS: u64 = 1000;

/// Least time between two progress reports while waiting, in milliseconds.
pub const PROGRESS_LOG_INTERVAL_MS: u64 = 5000;

/// How long the application waits for the backend at startup, in milliseconds.
pub const BACKEND_READY_MAX_WAIT_MS: u64 = 60000;

/// Errors of the spawn sequence.
#[derive(Debug, PartialEq, Eq, Structural, Clone, Copy)]
pub enum SupervisorError {
    /// The shared record could not be locked.
    LockFailure,
    /// The launcher could not create the backend process.
    SpawnFailure,
    /// The port was still taken when the cleanup timeout ran out.
    PortReleaseTimeout,
}

/// What the port-release wait does after one probe of the port.
pub open spec fn port_release_outcome(port_free: bool, elapsed: u64) -> Option<Result<(), SupervisorError>> {
    if port_free {
        Some(Ok(()))
    } else if elapsed < PORT_CLEANUP_TIMEOUT_MS {
        None
    } else {
        Some(Err(SupervisorError::PortReleaseTimeout))
    }
}

/// One step of the wait for the backend port to be released.
///
/// Given the latest probe of the port and the time since the wait began, returns
/// the final result, or `None` to probe again after `PORT_CHECK_INTERVAL_MS`.
pub fn wait_for_port_release_step(port_free: bool, elapsed: u64) -> (r: Option<Result<(), SupervisorError>>)
    ensures
        r == port_release_outcome(port_free, elapsed),
{
    if port_free {
        Some(Ok(()))
    } else if elapsed < PORT_CLEANUP_TIMEOUT_MS {
        None
    } else {
        Some(Err(SupervisorError::PortReleaseTimeout))
    }
}

/// The port-release wait ends in success exactly when the port was seen free, it
/// never gives up before the cleanup timeout, and once the timeout has passed it
/// always decides.
pub proof fn lemma_port_release_bounded(port_free: bool, elapsed: u64)
    ensures
        port_release_outcome(port_free, elapsed) == Some(Ok::<(), SupervisorError>(())) <==> port_free,
        port_release_outcome(port_free, elapsed) == Some(Err::<(), SupervisorError>(SupervisorError::PortReleaseTimeout))
            <==> (!port_free && elapsed >= PORT_CLEANUP_TIMEOUT_MS),
        elapsed >= PORT_CLEANUP_TIMEOUT_MS ==> port_release_outcome(port_free, elapsed).is_some(),
{
}

/// The result of a port-release wait that saw the probes `probes` in order,
/// each the port's state and the time since the wait began; `None` while it
/// has not decided.
pub open spec fn port_release_run(probes: Seq<(bool, u64)>) -> Option<Result<(), SupervisorError>>
    decreases probes.len(),
{
    if probes.len() == 0 {
        None
    } else {
        match port_release_outcome(probes[0].0, probes[0].1) {
            Some(r) => Some(r),
            None => port_release_run(probes.drop_first()),
        }
    }
}

/// The port is seen free at probe `i`, and every earlier probe saw it taken
/// before the cleanup timeout.
pub open spec fn released_at(probes: Seq<(bool, u64)>, i: int) -> bool {
    &&& 0 <= i < probes.len()
    &&& probes[i].0
    &&& forall|j: int| 0 <= j < i ==> !(#[trigger] probes[j]).0 && probes[j].1 < PORT_CLEANUP_TIMEOUT_MS
}

/// A port-release wait succeeds exactly when the port is seen free before any
/// probe past the cleanup timeout has found it taken; when it decides otherwise,
/// it fails with `PortReleaseTimeout`.
pub proof fn lemma_port_release_run(probes: Seq<(bool, u64)>)
    ensures
        port_release_run(probes) == Some(Ok::<(), SupervisorError>(())) <==> exists|i: int| released_at(probes, i),
        port_release_run(probes) matches Some(Err(e)) ==> e == SupervisorError::PortReleaseTimeout,
    decreases probes.len(),
{
    if probes.len() > 0 {
        let rest = probes.drop_first();
        lemma_port_release_run(rest);
        if probes[0].0 {
            assert(released_at(probes, 0));
        } else if probes[0].1 >= PORT_CLEANUP_TIMEOUT_MS {
            assert forall|i: int| !released_at(probes, i) by {
                if released_at(probes, i) && i > 0 {
                    assert(!probes[0].0 && probes[0].1 < PORT_CLEANUP_TIMEOUT_MS);
                }
            }
        } else {
            if exists|i: int| released_at(rest, i) {
                let i = choose|i: int| released_at(rest, i);
                assert forall|j: int| 0 <= j < i + 1 implies !(#[trigger] probes[j]).0 && probes[j].1 < PORT_CLEANUP_TIMEOUT_MS by {
                    if j > 0 {
                        assert(probes[j] == rest[j - 1]);
                    }
                }
                assert(released_at(probes, i + 1));
            }
            if exists|i: int| released_at(probes, i) {
                let i = choose|i: int| released_at(probes, i);
                assert(i > 0);
                assert forall|j: int| 0 <= j < i - 1 implies !(#[trigger] rest[j]).0 && rest[j].1 < PORT_CLEANUP_TIMEOUT_MS by {
                    assert(rest[j] == probes[j + 1]);
                }
                assert(released_at(rest, i - 1));
            }
        }
    }
}

/// One step of the wait for the backend to become healthy.
#[derive(Debug, PartialEq, Eq, Structural, Clone, Copy)]
pub enum ReadyWaitStep {
    /// Probe the backend's health now.
    Probe,
    /// The backend answered healthy: the wait succeeds.
    Ready,
    /// The time allowed ran out: the wait fails.
    TimedOut,
    /// Sleep `ms` milliseconds, after a progress report if `log_progress`.
    Sleep { ms: u64, log_progress: bool },
}

/// A bound shorter than one poll interval leaves no room for a probe and its
/// pause: such a wait fails at once.
pub open spec fn near_zero_wait(max_wait: u64) -> bool {
    max_wait < BACKEND_READY_CHECK_INTERVAL_MS
}

/// The decision of the readiness wait, `elapsed` milliseconds after it began,
/// allowed `max_wait`, with the result of the probe just made (if any) and the
/// time since the last progress report.
pub open spec fn ready_wait_decision(elapsed: u64, max_wait: u64, probe: Option<bool>, since_log: u64) -> ReadyWaitStep {
    if near_zero_wait(max_wait) {
        ReadyWaitStep::TimedOut
    } else if probe == Some(true) {
        ReadyWaitStep::Ready
    } else if elapsed >= max_wait {
        ReadyWaitStep::TimedOut
    } else if probe.is_none() {
        ReadyWaitStep::Probe
    } else {
        ReadyWaitStep::Sleep {
            ms: if max_wait - elapsed < BACKEND_READY_CHECK_INTERVAL_MS {
                (max_wait - elapsed) as u64
            } else {
                BACKEND_READY_CHECK_INTERVAL_MS
            },
            log_progress: since_log > PROGRESS_LOG_INTERVAL_MS,
        }
    }
}

/// One step of the wait for the backend to become healthy.
///
/// The caller starts with `probe == None`, probes when told to, hands the result
/// back, and sleeps as told; the wait ends on `Ready` or `TimedOut`. A bound
/// shorter than one poll interval fails at once, without a probe.
pub fn wait_for_backend_ready_step(elapsed: u64, max_wait: u64, probe: Option<bool>, since_log: u64) -> (r: ReadyWaitStep)
    ensures
        r == ready_wait_decision(elapsed, max_wait, probe, since_log),
{
    if max_wait < BACKEND_READY_CHECK_INTERVAL_MS {
        ReadyWaitStep::TimedOut
    } else if probe == Some(true) {
        ReadyWaitStep::Ready
    } else if elapsed >= max_wait {
        ReadyWaitStep::TimedOut
    } else if probe.is_none() {
        ReadyWaitStep::Probe
    } else {
        let left = max_wait - elapsed;
        let ms = if left < BACKEND_READY_CHECK_INTERVAL_MS {
            left
        } else {
            BACKEND_READY_CHECK_INTERVAL_MS
        };
        ReadyWaitStep::Sleep { ms, log_progress: since_log > PROGRESS_LOG_INTERVAL_MS }
    }
}

/// The readiness wait never sleeps past its bound and never probes once the
/// bound is reached; with a near-zero bound it fails at every step, whatever any
/// probe returned, so it never probes, sleeps or reports ready.
pub proof fn lemma_ready_wait_bounded(elapsed: u64, max_wait: u64, probe: Option<bool>, since_log: u64)
    ensures
        ready_wait_decision(elapsed, max_wait, probe, since_log) matches ReadyWaitStep::Sleep { ms, .. }
            ==> elapsed + ms <= max_wait && ms > 0,
        elapsed >= max_wait ==> ready_wait_decision(elapsed, max_wait, probe, since_log) != ReadyWaitStep::Probe,
        near_zero_wait(max_wait) ==> ready_wait_decision(elapsed, max_wait, probe, since_log) == ReadyWaitStep::TimedOut,
        ready_wait_decision(elapsed, max_wait, probe, since_log) == ReadyWaitStep::Ready
            <==> (probe == Some(true) && !near_zero_wait(max_wait)),
{
}

} // verus!
