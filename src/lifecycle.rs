//! The server's lifecycle: setup, serving, shutdown.

use vstd::prelude::*;

verus! {

/// The phases of the server process.
#[derive(PartialEq, Eq, Structural, Clone, Copy, Debug)]
pub enum Phase {
    Uninitialized,
    /// Tools are registered and the registry is frozen.
    Ready,
    /// The receive loop is running.
    Serving,
    ShuttingDown,
    Terminated,
}

/// What can happen to the server.
#[derive(PartialEq, Eq, Structural, Clone, Copy, Debug)]
pub enum Event {
    /// Every tool was registered.
    SetupDone,
    /// A registration failed.
    SetupFailed,
    /// A caller connected.
    Connected,
    /// The transport was closed.
    TransportClosed,
    /// An inbound message could not be decoded at all.
    DecodeFailed,
    /// A caller or a signal asked for shutdown.
    ShutdownRequested,
    /// The last in-flight dispatch finished.
    InFlightDone,
    /// The grace period for in-flight dispatches elapsed.
    GraceElapsed,
}

/// The phase after `e` in phase `p`; events that do not apply leave it as it is.
pub open spec fn next_phase_spec(p: Phase, e: Event) -> Phase {
    match (p, e) {
        (Phase::Uninitialized, Event::SetupDone) => Phase::Ready,
        (Phase::Uninitialized, Event::SetupFailed) => Phase::Terminated,
        (Phase::Ready, Event::Connected) => Phase::Serving,
        (Phase::Ready, Event::ShutdownRequested) => Phase::Terminated,
        (Phase::Ready, Event::TransportClosed) => Phase::Terminated,
        (Phase::Serving, Event::TransportClosed) => Phase::ShuttingDown,
        (Phase::Serving, Event::DecodeFailed) => Phase::ShuttingDown,
        (Phase::Serving, Event::ShutdownRequested) => Phase::ShuttingDown,
        (Phase::ShuttingDown, Event::InFlightDone) => Phase::Terminated,
        (Phase::ShuttingDown, Event::GraceElapsed) => Phase::Terminated,
        _ => p,
    }
}

/// Steps the lifecycle by one event.
pub fn next_phase(p: Phase, e: Event) -> (r: Phase)
    ensures
        r == next_phase_spec(p, e),
{
    match (p, e) {
        (Phase::Uninitialized, Event::SetupDone) => Phase::Ready,
        (Phase::Uninitialized, Event::SetupFailed) => Phase::Terminated,
        (Phase::Ready, Event::Connected) => Phase::Serving,
        (Phase::Ready, Event::ShutdownRequested) => Phase::Terminated,
        (Phase::Ready, Event::TransportClosed) => Phase::Terminated,
        (Phase::Serving, Event::TransportClosed) => Phase::ShuttingDown,
        (Phase::Serving, Event::DecodeFailed) => Phase::ShuttingDown,
        (Phase::Serving, Event::ShutdownRequested) => Phase::ShuttingDown,
        (Phase::ShuttingDown, Event::InFlightDone) => Phase::Terminated,
        (Phase::ShuttingDown, Event::GraceElapsed) => Phase::Terminated,
        _ => p,
    }
}

/// Whether tools may still be registered: only before setup is done.
pub fn accepts_registration(p: Phase) -> (r: bool)
    ensures
        r == (p == Phase::Uninitialized),
{
    p == Phase::Uninitialized
}

/// Whether requests are dispatched: only while serving.
pub fn accepts_requests(p: Phase) -> (r: bool)
    ensures
        r == (p == Phase::Serving),
{
    p == Phase::Serving
}

/// Serving is entered only from Ready, so never before the registry is
/// frozen; and Terminated is final.
pub proof fn lemma_lifecycle_order(p: Phase, e: Event)
    ensures
        next_phase_spec(p, e) == Phase::Serving ==> p == Phase::Ready || p == Phase::Serving,
        p == Phase::Terminated ==> next_phase_spec(p, e) == Phase::Terminated,
        p != Phase::Uninitialized ==> next_phase_spec(p, e) != Phase::Uninitialized,
{
}

} // verus!
