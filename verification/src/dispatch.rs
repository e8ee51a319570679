//! Per-loop decisions of the connection dispatcher and the frame pump.
//!
//! The dispatcher owns the listening socket: on each poll it first checks
//! the session's stop signal, then attempts a non-blocking accept. The
//! frame pump checks the same signal before producing each frame. Both
//! loops run outside the library; they feed every observation into the
//! decision functions here and perform the action decided, so the policy
//! of both loops is fixed by these contracts.
use vstd::prelude::*;

verus! {

/// Poll interval of the dispatcher's accept loop, in milliseconds. After
/// the stop signal is set, the accept loop exits within one such interval.
pub const ACCEPT_POLL_MS: u64 = 100;

/// Fixed pause between frames, in milliseconds — a soft cap near 20
/// frames per second. After the stop signal is set, a frame pump observes
/// it within one such interval plus any in-flight blocking send.
pub const FRAME_INTERVAL_MS: u64 = 50;

/// What one non-blocking accept attempt yielded.
#[derive(Clone, Copy, Debug, PartialEq, Eq, Structural)]
pub enum AcceptEvent {
    /// A connection was accepted.
    Accepted,
    /// No connection was ready.
    WouldBlock,
    /// The accept failed with some other error.
    Failed,
}

/// What the dispatcher does next.
#[derive(Clone, Copy, Debug, PartialEq, Eq, Structural)]
pub enum DispatchAction {
    /// Stop accepting and let the listener be dropped.
    Shutdown,
    /// Hand the accepted connection to an independent handler and poll
    /// again at once, without waiting for the handler.
    HandleConnection,
    /// Sleep one poll interval, then poll again.
    PauseThenRetry,
    /// Report the error and poll again; an accept error is never fatal for
    /// the session.
    ContinueAfterError,
}

/// The dispatcher's decision on one poll: the stop signal wins over every
/// accept outcome; otherwise an accepted connection is handed on, a
/// not-ready poll pauses, and any other error is reported and survived.
pub open spec fn dispatch_decision(stop_set: bool, event: AcceptEvent) -> DispatchAction {
    if stop_set {
        DispatchAction::Shutdown
    } else {
        match event {
            AcceptEvent::Accepted => DispatchAction::HandleConnection,
            AcceptEvent::WouldBlock => DispatchAction::PauseThenRetry,
            AcceptEvent::Failed => DispatchAction::ContinueAfterError,
        }
    }
}

/// Decide one poll of the dispatcher's accept loop.
pub fn dispatch_step(stop_set: bool, event: AcceptEvent) -> (action: DispatchAction)
    ensures
        action == dispatch_decision(stop_set, event),
{
    if stop_set {
        DispatchAction::Shutdown
    } else {
        match event {
            AcceptEvent::Accepted => DispatchAction::HandleConnection,
            AcceptEvent::WouldBlock => DispatchAction::PauseThenRetry,
            AcceptEvent::Failed => DispatchAction::ContinueAfterError,
        }
    }
}

/// What the frame pump does at the top of each iteration.
#[derive(Clone, Copy, Debug, PartialEq, Eq, Structural)]
pub enum PumpAction {
    /// The stop signal was observed: leave the loop and close gracefully.
    CloseGracefully,
    /// Produce the next frame and send it.
    ProduceAndSend,
}

/// The pump's decision at a loop boundary: exit exactly when the stop
/// signal is set.
pub open spec fn pump_decision(stop_set: bool) -> PumpAction {
    if stop_set {
        PumpAction::CloseGracefully
    } else {
        PumpAction::ProduceAndSend
    }
}

/// Decide one iteration of the frame pump.
pub fn pump_step(stop_set: bool) -> (action: PumpAction)
    ensures
        action == pump_decision(stop_set),
{
    if stop_set {
        PumpAction::CloseGracefully
    } else {
        PumpAction::ProduceAndSend
    }
}

/// Once the stop signal is set, the very next poll of the dispatcher shuts
/// it down, whatever the accept attempt yielded, and the very next frame
/// pump iteration exits: shutdown latency is bounded by one poll interval
/// for the dispatcher and one frame interval for each pump.
pub proof fn lemma_stop_observed_next_poll(event: AcceptEvent)
    ensures
        dispatch_decision(true, event) == DispatchAction::Shutdown,
        pump_decision(true) == PumpAction::CloseGracefully,
{
}

/// While the stop signal is clear, no accept outcome — in particular no
/// failure of a single connection — shuts the dispatcher down: an error is
/// confined to the connection it came from.
pub proof fn lemma_errors_never_stop_dispatcher(event: AcceptEvent)
    ensures
        dispatch_decision(false, event) != DispatchAction::Shutdown,
        pump_decision(false) == PumpAction::ProduceAndSend,
{
}

} // verus!
