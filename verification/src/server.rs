//! The accept loop of the proxy, as decisions: what the loop does on each
//! thing that happens to it. The loop itself (accepting, serving, waiting for
//! the shutdown signal) runs outside the library.
use vstd::prelude::*;

verus! {

/// What the accept loop was woken by.
#[derive(Debug)]
pub enum ProxyEvent {
    /// A connection was accepted.
    Accepted,
    /// Accepting a connection failed.
    AcceptFailed,
    /// The shutdown signal changed; it now holds this value.
    ShutdownSignal(bool),
}

/// What the accept loop does next.
#[derive(Debug)]
pub enum ProxyAction {
    /// Serve the accepted connection on its own task, and keep accepting.
    Serve,
    /// Report the failure, and keep accepting.
    ReportAndContinue,
    /// Keep accepting.
    Continue,
    /// Stop accepting and return.
    Stop,
}

/// The loop serves every accepted connection, reports failed accepts and goes
/// on, and stops exactly when the shutdown signal is raised.
pub fn next_action(event: &ProxyEvent) -> (action: ProxyAction)
    ensures
        match *event {
            ProxyEvent::Accepted => action is Serve,
            ProxyEvent::AcceptFailed => action is ReportAndContinue,
            ProxyEvent::ShutdownSignal(raised) => if raised {
                action is Stop
            } else {
                action is Continue
            },
        },
{
    match event {
        ProxyEvent::Accepted => ProxyAction::Serve,
        ProxyEvent::AcceptFailed => ProxyAction::ReportAndContinue,
        ProxyEvent::ShutdownSignal(raised) => if *raised {
            ProxyAction::Stop
        } else {
            ProxyAction::Continue
        },
    }
}

} // verus!
