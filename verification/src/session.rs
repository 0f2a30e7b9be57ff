//! Capture session registry: the single slot that holds at most one live
//! capture session, with deterministic start/stop/unload semantics. The
//! registry is the decision-making state machine; the caller owns the
//! worker thread and performs the spawn, the stop signal, the join and the
//! process exit that the transitions call for.

use vstd::prelude::*;
use crate::hook::EscapePolicy;

verus! {

/// Everything a host-facing operation can fail with.
#[derive(Clone, Copy, PartialEq, Eq, Structural, Debug)]
pub enum EngineError {
    /// `start` while a session is live.
    AlreadyRunning,
    /// `stop`, `unload` or `get_keys` with no session.
    NotRunning,
    /// The worker thread did not terminate cleanly.
    JoinFailure,
    /// `get_keys` after the producer side has gone away.
    ChannelClosed,
    /// The OS rejected the hook or hotkey registration.
    OsRegistrationFailure,
}

/// The capture strategy a session is started with.
pub enum CaptureStrategy {
    /// Sample the full keyboard state in a loop and report changes.
    ContinuousPoll,
    /// React to every key transition delivered by an OS hook.
    EventHook { escape: EscapePolicy },
    /// Watch one fixed chord of key codes as a binary pressed/released signal.
    SingleHotkey { chord: Vec<u8> },
}

/// Lifecycle of the registry slot.
#[derive(Clone, Copy, PartialEq, Eq, Structural, Debug)]
pub enum SessionPhase {
    /// No session; the slot is empty.
    Idle,
    /// `start` is allocating the input source and spawning the worker.
    Starting,
    /// The worker is live.
    Running,
    /// The stop signal is set and the worker is being joined.
    Stopping,
}

/// Whether the slot is occupied, as `is_running` reports it.
pub open spec fn spec_is_running(p: SessionPhase) -> bool {
    !(p is Idle)
}

/// `start`: legal only from `Idle`; a second start without an intervening
/// stop or unload is refused.
pub open spec fn spec_begin_start(p: SessionPhase) -> (SessionPhase, Result<(), EngineError>) {
    if p is Idle {
        (SessionPhase::Starting, Ok(()))
    } else {
        (p, Err(EngineError::AlreadyRunning))
    }
}

/// The worker spawned and the input source registered: the session is live.
pub open spec fn spec_confirm_start(p: SessionPhase) -> SessionPhase {
    SessionPhase::Running
}

/// The OS refused the registration before any worker ran: back to empty.
pub open spec fn spec_abort_start(p: SessionPhase) -> SessionPhase {
    SessionPhase::Idle
}

/// `stop`/`unload`, first half: legal only on a live session.
pub open spec fn spec_begin_stop(p: SessionPhase) -> (SessionPhase, Result<(), EngineError>) {
    if p is Running {
        (SessionPhase::Stopping, Ok(()))
    } else {
        (p, Err(EngineError::NotRunning))
    }
}

/// `stop`/`unload`, second half, after the join: the slot is emptied either
/// way, and an abnormal worker exit is surfaced rather than swallowed.
pub open spec fn spec_finish_stop(p: SessionPhase, join_ok: bool) -> (
    SessionPhase,
    Result<(), EngineError>,
) {
    (SessionPhase::Idle, if join_ok {
        Ok(())
    } else {
        Err(EngineError::JoinFailure)
    })
}

/// Starting twice without an intervening stop or unload is refused with
/// `AlreadyRunning`, whether the first start is still setting up or already
/// live.
pub proof fn lemma_start_twice_rejected(p: SessionPhase)
    requires
        spec_begin_start(p).1 is Ok,
    ensures
        spec_begin_start(spec_begin_start(p).0).1 == Err::<(), EngineError>(
            EngineError::AlreadyRunning,
        ),
        spec_begin_start(spec_confirm_start(spec_begin_start(p).0)).1 == Err::<(), EngineError>(
            EngineError::AlreadyRunning,
        ),
{
}

/// Stopping or unloading twice is refused: whatever the join reported, the
/// first stop empties the slot and the second finds no session.
pub proof fn lemma_stop_twice_rejected(p: SessionPhase, join_ok: bool)
    requires
        spec_begin_stop(p).1 is Ok,
    ensures
        spec_begin_stop(spec_finish_stop(spec_begin_stop(p).0, join_ok).0).1 == Err::<(
        ), EngineError>(EngineError::NotRunning),
{
}

/// After a successful unload the slot is empty and `is_running` is false.
pub proof fn lemma_unload_leaves_idle(p: SessionPhase, join_ok: bool)
    requires
        spec_begin_stop(p).1 is Ok,
    ensures
        !spec_is_running(spec_finish_stop(spec_begin_stop(p).0, join_ok).0),
{
}

/// The registry slot: at most one live capture session process-wide. The
/// caller serializes access (one lock around every operation) and drives
/// each transition; the contracts here make the slot's lifecycle
/// deterministic.
pub struct SessionRegistry {
    phase: SessionPhase,
}

impl SessionRegistry {
    /// The current lifecycle phase.
    pub closed spec fn phase(&self) -> SessionPhase {
        self.phase
    }

    /// An empty registry: no session.
    pub fn new() -> (r: SessionRegistry)
        ensures
            r.phase() is Idle,
    {
        SessionRegistry { phase: SessionPhase::Idle }
    }

    /// Whether the slot is occupied. Pure query; never blocks.
    pub fn is_running(&self) -> (r: bool)
        ensures
            r == spec_is_running(self.phase()),
    {
        !matches!(self.phase, SessionPhase::Idle)
    }

    /// Claim the slot for a new session. On success the caller must go on
    /// to register the input source and spawn the worker, then confirm or
    /// abort.
    pub fn begin_start(&mut self) -> (r: Result<(), EngineError>)
        ensures
            final(self).phase() == spec_begin_start(old(self).phase()).0,
            r == spec_begin_start(old(self).phase()).1,
    {
        match self.phase {
            SessionPhase::Idle => {
                self.phase = SessionPhase::Starting;
                Ok(())
            },
            _ => Err(EngineError::AlreadyRunning),
        }
    }

    /// The worker is spawned and observing input: the session is live.
    pub fn confirm_start(&mut self)
        requires
            old(self).phase() is Starting,
        ensures
            final(self).phase() == spec_confirm_start(old(self).phase()),
    {
        self.phase = SessionPhase::Running;
    }

    /// The OS rejected the hook or hotkey registration before any worker
    /// ran: release the slot and surface the failure synchronously.
    pub fn abort_start(&mut self) -> (e: EngineError)
        requires
            old(self).phase() is Starting,
        ensures
            final(self).phase() == spec_abort_start(old(self).phase()),
            e == EngineError::OsRegistrationFailure,
    {
        self.phase = SessionPhase::Idle;
        EngineError::OsRegistrationFailure
    }

    /// First half of `stop`/`unload`: take the live session out of the
    /// slot. On success the caller must set the stop signal, wake the
    /// worker, join it, and report the join through `finish_stop`.
    pub fn begin_stop(&mut self) -> (r: Result<(), EngineError>)
        ensures
            final(self).phase() == spec_begin_stop(old(self).phase()).0,
            r == spec_begin_stop(old(self).phase()).1,
    {
        match self.phase {
            SessionPhase::Running => {
                self.phase = SessionPhase::Stopping;
                Ok(())
            },
            _ => Err(EngineError::NotRunning),
        }
    }

    /// Second half of `stop`/`unload`, after the join: the slot is empty
    /// either way, and a worker that did not terminate cleanly is reported
    /// as `JoinFailure` instead of being swallowed.
    pub fn finish_stop(&mut self, join_ok: bool) -> (r: Result<(), EngineError>)
        requires
            old(self).phase() is Stopping,
        ensures
            final(self).phase() == spec_finish_stop(old(self).phase(), join_ok).0,
            r == spec_finish_stop(old(self).phase(), join_ok).1,
            !spec_is_running(final(self).phase()),
    {
        self.phase = SessionPhase::Idle;
        if join_ok {
            Ok(())
        } else {
            Err(EngineError::JoinFailure)
        }
    }
}

} // verus!
