use vstd::prelude::*;

use crate::text::{contains_bytes, has_content, line_has_content, occurs_in};

verus! {

/// Minimum time between two spawn attempts, in milliseconds.
pub const SPAWN_COOLDOWN_MS: u64 = 3000;

/// The text the backend writes to its error stream once it serves requests.
pub open spec fn ready_marker() -> Seq<u8> {
    seq![65u8, 112u8, 112u8, 108u8, 105u8, 99u8, 97u8, 116u8, 105u8, 111u8, 110u8, 32u8, 115u8,
         116u8, 97u8, 114u8, 116u8, 117u8, 112u8, 32u8, 99u8, 111u8, 109u8, 112u8, 108u8, 101u8,
         116u8, 101u8]
}

/// The text the backend writes when another copy of it already holds the port.
pub open spec fn duplicate_marker() -> Seq<u8> {
    seq![65u8, 110u8, 111u8, 116u8, 104u8, 101u8, 114u8, 32u8, 105u8, 110u8, 115u8, 116u8, 97u8,
         110u8, 99u8, 101u8, 32u8, 105u8, 115u8, 32u8, 97u8, 108u8, 114u8, 101u8, 97u8, 100u8,
         121u8, 32u8, 114u8, 117u8, 110u8, 110u8, 105u8, 110u8, 103u8]
}

fn ready_marker_bytes() -> (r: Vec<u8>)
    ensures
        r@ == ready_marker(),
{
    let r = vec![65u8, 112u8, 112u8, 108u8, 105u8, 99u8, 97u8, 116u8, 105u8, 111u8, 110u8, 32u8,
        115u8, 116u8, 97u8, 114u8, 116u8, 117u8, 112u8, 32u8, 99u8, 111u8, 109u8, 112u8, 108u8,
        101u8, 116u8, 101u8];
    assert(r@ =~= ready_marker());
    r
}

fn duplicate_marker_bytes() -> (r: Vec<u8>)
    ensures
        r@ == duplicate_marker(),
{
    let r = vec![65u8, 110u8, 111u8, 116u8, 104u8, 101u8, 114u8, 32u8, 105u8, 110u8, 115u8,
        116u8, 97u8, 110u8, 99u8, 101u8, 32u8, 105u8, 115u8, 32u8, 97u8, 108u8, 114u8, 101u8,
        97u8, 100u8, 121u8, 32u8, 114u8, 117u8, 110u8, 110u8, 105u8, 110u8, 103u8];
    assert(r@ =~= duplicate_marker());
    r
}

/// The supervisor's single record of the backend process.
///
/// `C` is the launcher's handle to the child process. Times are milliseconds
/// on a monotonic clock chosen by the caller.
#[derive(Debug)]
pub struct SidecarState<C> {
    pub child: Option<C>,
    pub is_ready: bool,
    pub pid: Option<u32>,
    pub spawn_time: Option<u64>,
    pub should_run: bool,
}

/// A spawn at `spawn_time` is too recent to allow another at `now`.
pub open spec fn in_cooldown(spawn_time: u64, now: u64) -> bool {
    (now as int) < spawn_time + SPAWN_COOLDOWN_MS
}

/// The spawn gate: the supervisor still means to run, the recorded process is not
/// alive, and the last spawn is not within the cooldown window.
pub open spec fn spawn_allowed<C>(s: SidecarState<C>, pid_running: bool, now: u64) -> bool {
    &&& s.should_run
    &&& !(s.pid.is_some() && pid_running)
    &&& !(s.spawn_time.is_some() && in_cooldown(s.spawn_time.unwrap(), now))
}

/// The record after a termination notice for `pid`.
pub open spec fn after_termination<C>(s: SidecarState<C>, pid: u32) -> SidecarState<C> {
    if s.pid == Some(pid) {
        SidecarState { child: None, is_ready: false, pid: None, spawn_time: None, ..s }
    } else {
        s
    }
}

/// The record after one line on the error stream; `seen` tells whether this
/// spawn already reported readiness.
pub open spec fn after_stderr<C>(s: SidecarState<C>, line: Seq<u8>, seen: bool) -> SidecarState<C> {
    if !seen && occurs_in(line, ready_marker()) {
        SidecarState { is_ready: true, ..s }
    } else {
        s
    }
}

impl<C> SidecarState<C> {
    /// A fresh record: meant to run, nothing spawned yet.
    pub fn new() -> (r: Self)
        ensures
            r.child.is_none(),
            !r.is_ready,
            r.pid.is_none(),
            r.spawn_time.is_none(),
            r.should_run,
    {
        SidecarState { child: None, is_ready: false, pid: None, spawn_time: None, should_run: true }
    }
}

/// Decides whether a new backend process may be spawned at time `now`.
///
/// `pid_running` is whether the recorded pid was found alive; it is not
/// consulted when no pid is recorded.
pub fn should_spawn_sidecar<C>(state: &SidecarState<C>, pid_running: bool, now: u64) -> (r: bool)
    ensures
        r == spawn_allowed(*state, pid_running, now),
{
    if !state.should_run {
        return false;
    }
    if state.pid.is_some() && pid_running {
        return false;
    }
    match state.spawn_time {
        Some(t) => now >= t && now - t >= SPAWN_COOLDOWN_MS,
        None => true,
    }
}

/// Records a backend that already answers health probes: when `healthy`, the
/// record is marked ready and no spawn is needed.
pub fn is_backend_already_ready<C>(state: &mut SidecarState<C>, healthy: bool) -> (r: bool)
    ensures
        r == healthy,
        *final(state) == (if healthy {
            SidecarState { is_ready: true, ..*old(state) }
        } else {
            *old(state)
        }),
{
    if healthy {
        state.is_ready = true;
    }
    healthy
}

/// Records a freshly launched child process with its pid, spawned at `now`.
pub fn update_sidecar_state<C>(state: &mut SidecarState<C>, child: C, pid: u32, now: u64)
    ensures
        final(state).child == Some(child),
        final(state).pid == Some(pid),
        !final(state).is_ready,
        final(state).spawn_time == Some(now),
        final(state).should_run == old(state).should_run,
{
    state.child = Some(child);
    state.pid = Some(pid);
    state.is_ready = false;
    state.spawn_time = Some(now);
}

/// Whether a line from the output stream holds anything worth logging.
pub fn handle_stdout_event(bytes: &[u8]) -> (r: bool)
    ensures
        r == has_content(bytes@),
{
    line_has_content(bytes)
}

/// Handles one line from the error stream of the child.
///
/// `backend_ready` tells whether readiness was already seen for this spawn; the
/// result is the new value of that flag. The record is marked ready the first
/// time the readiness marker shows up.
pub fn handle_stderr_event<C>(bytes: &[u8], backend_ready: bool, state: &mut SidecarState<C>) -> (r: bool)
    ensures
        r == (backend_ready || occurs_in(bytes@, ready_marker())),
        *final(state) == after_stderr(*old(state), bytes@, backend_ready),
{
    if backend_ready {
        return true;
    }
    let marker = ready_marker_bytes();
    if contains_bytes(bytes, marker.as_slice()) {
        state.is_ready = true;
        true
    } else {
        false
    }
}

/// Whether readiness has been seen for this spawn once this error-stream line is
/// read, whether or not the record could be updated.
pub fn readiness_after_line(bytes: &[u8], backend_ready: bool) -> (r: bool)
    ensures
        r == (backend_ready || occurs_in(bytes@, ready_marker())),
{
    if backend_ready {
        return true;
    }
    let marker = ready_marker_bytes();
    contains_bytes(bytes, marker.as_slice())
}

/// Whether a line from the error stream reports a second backend instance.
pub fn reports_duplicate_instance(bytes: &[u8]) -> (r: bool)
    ensures
        r == occurs_in(bytes@, duplicate_marker()),
{
    let marker = duplicate_marker_bytes();
    contains_bytes(bytes, marker.as_slice())
}

/// Handles the termination notice of the child spawned with `pid`.
///
/// The record is cleared only when it still describes that child; a late notice
/// from a superseded spawn leaves it as it is.
pub fn handle_terminated_event<C>(state: &mut SidecarState<C>, pid: u32)
    ensures
        *final(state) == after_termination(*old(state), pid),
{
    let matches = match state.pid {
        Some(p) => p == pid,
        None => false,
    };
    if matches {
        state.child = None;
        state.is_ready = false;
        state.pid = None;
        state.spawn_time = None;
    }
}

/// Starts shutdown: no further spawns, and the child, if any, is handed to the
/// caller to be killed, with the rest of the record cleared.
pub fn begin_shutdown<C>(state: &mut SidecarState<C>) -> (r: Option<C>)
    ensures
        r == old(state).child,
        !final(state).should_run,
        final(state).child.is_none(),
        old(state).child.is_some() ==> {
            &&& !final(state).is_ready
            &&& final(state).pid.is_none()
            &&& final(state).spawn_time.is_none()
        },
        old(state).child.is_none() ==> {
            &&& final(state).is_ready == old(state).is_ready
            &&& final(state).pid == old(state).pid
            &&& final(state).spawn_time == old(state).spawn_time
        },
{
    state.should_run = false;
    let child = state.child.take();
    if child.is_some() {
        state.is_ready = false;
        state.pid = None;
        state.spawn_time = None;
    }
    child
}

/// Takes the child out of the record so that it can be killed when the
/// supervisor goes away.
pub fn take_child<C>(state: &mut SidecarState<C>) -> (r: Option<C>)
    ensures
        r == old(state).child,
        *final(state) == (SidecarState { child: None, ..*old(state) }),
{
    state.child.take()
}

/// The record and the readiness flag after the error-stream lines `lines`, in order.
pub open spec fn after_stderr_lines<C>(s: SidecarState<C>, seen: bool, lines: Seq<Seq<u8>>) -> (SidecarState<C>, bool)
    decreases lines.len(),
{
    if lines.len() == 0 {
        (s, seen)
    } else {
        let (s1, seen1) = after_stderr_lines(s, seen, lines.drop_last());
        let line = lines.last();
        (after_stderr(s1, line, seen1), seen1 || occurs_in(line, ready_marker()))
    }
}

/// Some line of `lines` carries the readiness marker.
pub open spec fn marker_seen(lines: Seq<Seq<u8>>) -> bool {
    exists|i: int| 0 <= i < lines.len() && occurs_in(#[trigger] lines[i], ready_marker())
}

/// The spawn gate refuses once shutdown was requested, refuses within the
/// cooldown window (a spawn recorded at the current time in particular), and
/// admits a fresh record.
pub proof fn lemma_spawn_gate<C>(s: SidecarState<C>, pid_running: bool, now: u64)
    ensures
        !s.should_run ==> !spawn_allowed(s, pid_running, now),
        s.spawn_time == Some(now) ==> !spawn_allowed(s, pid_running, now),
        (s.should_run && s.pid.is_none() && s.spawn_time.is_none()) ==> spawn_allowed(s, pid_running, now),
{
}

/// Over any run of error-stream lines, the readiness flag ends up set exactly
/// when it was set before or some line carried the readiness marker, and the
/// record is marked ready under the same condition; nothing else in the record
/// changes, so marker-free lines (duplicate-instance reports among them) never
/// clear readiness.
pub proof fn lemma_readiness_sticky<C>(s: SidecarState<C>, seen: bool, lines: Seq<Seq<u8>>)
    ensures
        after_stderr_lines(s, seen, lines).1 == (seen || marker_seen(lines)),
        after_stderr_lines(s, seen, lines).0.is_ready == (s.is_ready || (!seen && marker_seen(lines))),
        after_stderr_lines(s, seen, lines).0 == (SidecarState { is_ready: after_stderr_lines(s, seen, lines).0.is_ready, ..s }),
    decreases lines.len(),
{
    if lines.len() > 0 {
        let prefix = lines.drop_last();
        lemma_readiness_sticky(s, seen, prefix);
        if marker_seen(lines) {
            let i = choose|i: int| 0 <= i < lines.len() && occurs_in(#[trigger] lines[i], ready_marker());
            if i < lines.len() - 1 {
                assert(prefix[i] == lines[i]);
            }
        }
        if marker_seen(prefix) {
            let i = choose|i: int| 0 <= i < prefix.len() && occurs_in(#[trigger] prefix[i], ready_marker());
            assert(lines[i] == prefix[i]);
        }
    }
}

/// A line without the readiness marker leaves the record as it is.
pub proof fn lemma_marker_free_line_keeps_state<C>(s: SidecarState<C>, line: Seq<u8>, seen: bool)
    requires
        !occurs_in(line, ready_marker()),
    ensures
        after_stderr(s, line, seen) == s,
{
}

/// A termination notice clears the record exactly when it is for the recorded
/// pid; a notice for any other pid leaves the record unchanged.
pub proof fn lemma_termination_guard<C>(s: SidecarState<C>, pid: u32)
    ensures
        s.pid != Some(pid) ==> after_termination(s, pid) == s,
        s.pid == Some(pid) ==> {
            let t = after_termination(s, pid);
            &&& t.child.is_none()
            &&& t.pid.is_none()
            &&& !t.is_ready
            &&& t.spawn_time.is_none()
            &&& t.should_run == s.should_run
        },
{
}

} // verus!
