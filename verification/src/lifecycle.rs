//! The server lifecycle as a state machine.
//!
//! The process edge performs the waiting — accepting connections, awaiting
//! signals, draining — and feeds every observation into [`step`], which
//! decides the next phase and what to announce. Graceful shutdown is a
//! cooperative decision here, not an abrupt interrupt: either interrupt
//! signal begins a drain, and the machine reports a stop only once every
//! admitted request has completed.

use vstd::prelude::*;

verus! {

/// The phase of one API server's life.
#[derive(Debug, Clone, Copy, PartialEq, Eq, Structural)]
pub enum ServerPhase {
    /// Built; routes may still be registered, nothing is served yet.
    Constructed,
    /// The listener accepts requests; `in_flight` of them are being served.
    Listening { in_flight: u64 },
    /// A shutdown signal arrived: no new request is admitted and the
    /// remaining `in_flight` requests drain.
    ShuttingDown { in_flight: u64 },
    /// Every admitted request has completed; the stop has been announced.
    Stopped,
}

/// An observation the process edge feeds into the machine.
#[derive(Debug, Clone, Copy, PartialEq, Eq, Structural)]
pub enum ServerEvent {
    /// The listener bound its address and began serving.
    Started,
    /// The listener admitted one request.
    Accepted,
    /// One admitted request completed and its response was delivered.
    Completed,
    /// A keyboard-interrupt signal arrived.
    Interrupted,
    /// A termination signal arrived.
    Terminated,
    /// The serve loop finished handing out responses after a shutdown began.
    Drained,
}

/// What the process edge must announce after a step.
#[derive(Debug, Clone, Copy, PartialEq, Eq, Structural)]
pub enum ServerAction {
    /// Nothing to announce.
    Ignore,
    /// Announce that the server is listening on its configured address.
    LogListening,
    /// Announce that a signal was received and graceful shutdown begins.
    LogShutdownStart,
    /// Announce that the server stopped successfully.
    LogStopped,
}

/// How many admitted requests a phase still owes a response.
pub open spec fn in_flight_of(phase: ServerPhase) -> int {
    match phase {
        ServerPhase::Constructed => 0,
        ServerPhase::Listening { in_flight } => in_flight as int,
        ServerPhase::ShuttingDown { in_flight } => in_flight as int,
        ServerPhase::Stopped => 0,
    }
}

/// The transition relation of the lifecycle.
///
/// While listening, either interrupt signal — whichever arrives first —
/// moves the machine into the draining phase; from then on no request is
/// admitted. The machine is total: an observation that a phase has no
/// business with leaves it unchanged. The in-flight count saturates at the
/// machine's integer limit, which no real process approaches.
pub open spec fn spec_step(phase: ServerPhase, event: ServerEvent) -> (ServerPhase, ServerAction) {
    match (phase, event) {
        (ServerPhase::Constructed, ServerEvent::Started) => (
            ServerPhase::Listening { in_flight: 0 },
            ServerAction::LogListening,
        ),
        (ServerPhase::Listening { in_flight }, ServerEvent::Accepted) => (
            ServerPhase::Listening {
                in_flight: if in_flight < u64::MAX { (in_flight + 1) as u64 } else { in_flight },
            },
            ServerAction::Ignore,
        ),
        (ServerPhase::Listening { in_flight }, ServerEvent::Completed) => (
            ServerPhase::Listening {
                in_flight: if in_flight > 0 { (in_flight - 1) as u64 } else { 0 },
            },
            ServerAction::Ignore,
        ),
        (ServerPhase::Listening { in_flight }, ServerEvent::Interrupted) => (
            ServerPhase::ShuttingDown { in_flight },
            ServerAction::LogShutdownStart,
        ),
        (ServerPhase::Listening { in_flight }, ServerEvent::Terminated) => (
            ServerPhase::ShuttingDown { in_flight },
            ServerAction::LogShutdownStart,
        ),
        (ServerPhase::ShuttingDown { in_flight }, ServerEvent::Completed) => (
            ServerPhase::ShuttingDown {
                in_flight: if in_flight > 0 { (in_flight - 1) as u64 } else { 0 },
            },
            ServerAction::Ignore,
        ),
        (ServerPhase::ShuttingDown { in_flight }, ServerEvent::Drained) => if in_flight == 0 {
            (ServerPhase::Stopped, ServerAction::LogStopped)
        } else {
            (ServerPhase::ShuttingDown { in_flight }, ServerAction::Ignore)
        },
        _ => (phase, ServerAction::Ignore),
    }
}

/// Advances the lifecycle by one observation.
pub fn step(phase: ServerPhase, event: ServerEvent) -> (r: (ServerPhase, ServerAction))
    ensures
        r == spec_step(phase, event),
{
    match (phase, event) {
        (ServerPhase::Constructed, ServerEvent::Started) => (
            ServerPhase::Listening { in_flight: 0 },
            ServerAction::LogListening,
        ),
        (ServerPhase::Listening { in_flight }, ServerEvent::Accepted) => (
            ServerPhase::Listening {
                in_flight: if in_flight < u64::MAX { in_flight + 1 } else { in_flight },
            },
            ServerAction::Ignore,
        ),
        (ServerPhase::Listening { in_flight }, ServerEvent::Completed) => (
            ServerPhase::Listening { in_flight: if in_flight > 0 { in_flight - 1 } else { 0 } },
            ServerAction::Ignore,
        ),
        (ServerPhase::Listening { in_flight }, ServerEvent::Interrupted) => (
            ServerPhase::ShuttingDown { in_flight },
            ServerAction::LogShutdownStart,
        ),
        (ServerPhase::Listening { in_flight }, ServerEvent::Terminated) => (
            ServerPhase::ShuttingDown { in_flight },
            ServerAction::LogShutdownStart,
        ),
        (ServerPhase::ShuttingDown { in_flight }, ServerEvent::Completed) => (
            ServerPhase::ShuttingDown { in_flight: if in_flight > 0 { in_flight - 1 } else { 0 } },
            ServerAction::Ignore,
        ),
        (ServerPhase::ShuttingDown { in_flight }, ServerEvent::Drained) => if in_flight == 0 {
            (ServerPhase::Stopped, ServerAction::LogStopped)
        } else {
            (ServerPhase::ShuttingDown { in_flight }, ServerAction::Ignore)
        },
        (p, _) => (p, ServerAction::Ignore),
    }
}

/// The server reports a stop only once every in-flight request has completed
/// and its response was delivered: the only transition into `Stopped` is the
/// drain finishing in a shutdown phase that owes no responses.
pub proof fn lemma_stop_only_after_drain(phase: ServerPhase, event: ServerEvent)
    ensures
        spec_step(phase, event).0 is Stopped && !(phase is Stopped) ==> (phase
            matches ServerPhase::ShuttingDown { in_flight } && in_flight == 0 && event
            is Drained),
        spec_step(phase, event).1 is LogStopped ==> in_flight_of(phase) == 0,
{
}

/// Once shutdown has begun, the work owed never grows: no new request is
/// admitted while draining or after the stop.
pub proof fn lemma_shutdown_admits_nothing(phase: ServerPhase, event: ServerEvent)
    requires
        phase is ShuttingDown || phase is Stopped,
    ensures
        in_flight_of(spec_step(phase, event).0) <= in_flight_of(phase),
        spec_step(phase, event).0 is ShuttingDown || spec_step(phase, event).0 is Stopped,
{
}

} // verus!
