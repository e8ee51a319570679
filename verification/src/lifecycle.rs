//! The session lifecycle: the externally visible start/stop/restart
//! control. At most one session is tracked at a time; starting while one
//! is active stops the previous one first, and a failed bind records no
//! session at all.
//!
//! The record kept here is the pure state of the manager; the listener,
//! the worker handle, and the shared stop flag live with the loops outside
//! the library, which drive this machine: `request_start` hands back the
//! previous session so its stop signal can be set, then the caller binds
//! the listener and reports `bind_succeeded` or `bind_failed`.
use vstd::prelude::*;

verus! {

/// What one session is: its bound port and the display it streams.
#[derive(Clone, Copy, Debug, PartialEq, Eq, Structural)]
pub struct SessionInfo {
    /// The TCP port the session's listener is bound to.
    pub port: u16,
    /// The display index the session streams; bounds-checked against the
    /// live display list at capture time, not at start time.
    pub display_index: usize,
}

/// The manager's phase: no session, a session whose listener is being
/// bound, or a running session.
#[derive(Clone, Copy, Debug, PartialEq, Eq, Structural)]
pub enum Phase {
    /// No session is tracked.
    Stopped,
    /// A start was requested and the listener is being bound; nothing is
    /// recorded as running yet.
    Starting(SessionInfo),
    /// The session is running: its dispatcher owns the bound port.
    Running(SessionInfo),
}

/// The session a phase is about, if any.
pub open spec fn session_of(p: Phase) -> Option<SessionInfo> {
    match p {
        Phase::Stopped => None,
        Phase::Starting(s) => Some(s),
        Phase::Running(s) => Some(s),
    }
}

/// Requesting a start always moves to `Starting` with the new session,
/// whatever was tracked before.
pub open spec fn start_spec(p: Phase, port: u16, display_index: usize) -> Phase {
    Phase::Starting(SessionInfo { port, display_index })
}

/// A successful bind promotes a pending session to running.
pub open spec fn bind_ok_spec(p: Phase) -> Phase {
    match p {
        Phase::Starting(s) => Phase::Running(s),
        _ => p,
    }
}

/// A failed bind fails closed: no partial session is recorded.
pub open spec fn bind_fail_spec(p: Phase) -> Phase {
    match p {
        Phase::Starting(_) => Phase::Stopped,
        _ => p,
    }
}

/// Stopping always clears the record, from any phase.
pub open spec fn stop_spec(p: Phase) -> Phase {
    Phase::Stopped
}

/// The session lifecycle manager's record. One instance is owned by
/// whatever composes the application; only `start`/`stop` update it, so a
/// coarse lock around it is enough.
pub struct Lifecycle {
    /// The current phase.
    pub phase: Phase,
}

impl Lifecycle {
    /// A fresh manager tracks no session.
    pub fn new() -> (r: Lifecycle)
        ensures
            r.phase == Phase::Stopped,
    {
        Lifecycle { phase: Phase::Stopped }
    }

    /// Begin a start: hand back the previously tracked session — whose
    /// stop signal the caller must set before binding anew — and move to
    /// `Starting` for the new port and display index.
    pub fn request_start(&mut self, port: u16, display_index: usize) -> (prev: Option<SessionInfo>)
        ensures
            final(self).phase == start_spec(old(self).phase, port, display_index),
            prev == session_of(old(self).phase),
    {
        let prev = match self.phase {
            Phase::Stopped => None,
            Phase::Starting(s) => Some(s),
            Phase::Running(s) => Some(s),
        };
        self.phase = Phase::Starting(SessionInfo { port, display_index });
        prev
    }

    /// The listener bound successfully: record the pending session as
    /// running.
    pub fn bind_succeeded(&mut self)
        requires
            old(self).phase matches Phase::Starting(_),
        ensures
            final(self).phase == bind_ok_spec(old(self).phase),
    {
        match self.phase {
            Phase::Starting(s) => {
                self.phase = Phase::Running(s);
            },
            _ => {},
        }
    }

    /// The bind failed: fail closed, recording no session.
    pub fn bind_failed(&mut self)
        requires
            old(self).phase matches Phase::Starting(_),
        ensures
            final(self).phase == bind_fail_spec(old(self).phase),
    {
        self.phase = Phase::Stopped;
    }

    /// Stop: hand back the tracked session, if any — the caller sets its
    /// stop signal and detaches its worker handle — and clear the record.
    /// Returns at once from any phase; stopping with no session tracked is
    /// a no-op that hands back nothing. Actual socket teardown happens
    /// asynchronously, bounded by the accept-poll and frame intervals.
    pub fn request_stop(&mut self) -> (prev: Option<SessionInfo>)
        ensures
            final(self).phase == stop_spec(old(self).phase),
            prev == session_of(old(self).phase),
            old(self).phase == Phase::Stopped ==> final(self).phase == old(self).phase && prev
                is None,
    {
        let prev = match self.phase {
            Phase::Stopped => None,
            Phase::Starting(s) => Some(s),
            Phase::Running(s) => Some(s),
        };
        self.phase = Phase::Stopped;
        prev
    }

    /// The session this manager currently tracks, if any.
    pub fn current_session(&self) -> (s: Option<SessionInfo>)
        ensures
            s == session_of(self.phase),
    {
        match self.phase {
            Phase::Stopped => None,
            Phase::Starting(s) => Some(s),
            Phase::Running(s) => Some(s),
        }
    }
}

/// Stopping when nothing is tracked is a no-op, and stopping twice is the
/// same as stopping once.
pub proof fn lemma_stop_idempotent(p: Phase)
    ensures
        stop_spec(stop_spec(p)) == stop_spec(p),
        p == Phase::Stopped ==> stop_spec(p) == p,
{
}

/// Restart: after a stop, a start for any port and display index whose
/// bind succeeds is running that session — whatever was tracked before the
/// stop.
pub proof fn lemma_restart(p: Phase, port: u16, display_index: usize)
    ensures
        bind_ok_spec(start_spec(stop_spec(p), port, display_index)) == Phase::Running(
            SessionInfo { port, display_index },
        ),
{
}

/// Starting over a running session replaces it: the old session is handed
/// back to be stopped, and the attempt either runs the new session after a
/// clean bind or fails closed to `Stopped` on a bind error — it never
/// keeps the old session and never records a partial one.
pub proof fn lemma_start_replaces_running(s: SessionInfo, port: u16, display_index: usize)
    ensures
        session_of(Phase::Running(s)) == Some(s),
        bind_ok_spec(start_spec(Phase::Running(s), port, display_index)) == Phase::Running(
            SessionInfo { port, display_index },
        ),
        bind_fail_spec(start_spec(Phase::Running(s), port, display_index)) == Phase::Stopped,
{
}

} // verus!
