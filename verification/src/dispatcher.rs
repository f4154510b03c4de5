//! The per-message decisions of the serving loop and of a spawned request
//! task.  The loop itself — awaiting the transport, the shutdown signal and
//! the ordering token, and spawning tasks — is async plumbing outside this
//! core; it feeds every observation through these functions and performs the
//! action they return.

use vstd::prelude::*;
use crate::types::{ClientId, Request};

verus! {

/// What the serving loop can observe while waiting for work.
#[derive(Clone, PartialEq, Debug)]
pub enum ServeEvent {
    /// The shutdown signal arrived: the host shut down in an orderly way.
    ShutdownSignal,
    /// The shutdown sender was dropped: the host thread is gone.  Treated
    /// exactly like the signal itself.
    ShutdownChannelClosed,
    /// The transport delivered the next request of its FIFO stream.
    Incoming(ClientId, Request),
    /// The peer disconnected completely.
    Disconnected,
    /// Any other transport failure: the transport contract is broken and no
    /// safe continuation exists.
    TransportError,
}

/// What the serving loop does next.
#[derive(Clone, PartialEq, Debug)]
pub enum ServeAction {
    /// Leave the loop cleanly, accepting no further request.
    Stop,
    /// Spawn the handler pipeline for this request, then await its ordering
    /// token before reading the next request.
    Dispatch(ClientId, Request),
    /// Abort the process: the transport reported a protocol-level failure.
    Fatal,
}

/// Decides one iteration of the serving loop.  Both shutdown observations
/// stop the loop cleanly, as does a disconnect; only a protocol-level
/// transport failure is fatal; every delivered request is dispatched.
pub fn serve_step(ev: ServeEvent) -> (a: ServeAction)
    ensures
        ev is ShutdownSignal ==> a is Stop,
        ev is ShutdownChannelClosed ==> a is Stop,
        ev is Disconnected ==> a is Stop,
        ev is TransportError ==> a is Fatal,
        ev matches ServeEvent::Incoming(c, r) ==> a matches ServeAction::Dispatch(c2, r2)
            && c2 == c && r2 == r,
{
    match ev {
        ServeEvent::ShutdownSignal => ServeAction::Stop,
        ServeEvent::ShutdownChannelClosed => ServeAction::Stop,
        ServeEvent::Incoming(c, r) => ServeAction::Dispatch(c, r),
        ServeEvent::Disconnected => ServeAction::Stop,
        ServeEvent::TransportError => ServeAction::Fatal,
    }
}

/// How the unverified edges of a spawned task can fail after the handler has
/// run: sending the reply can fail to serialise, and waking the renderer can
/// find the event loop already torn down.
#[derive(Clone, Copy, PartialEq, Eq, Structural, Debug)]
pub enum HandlerError {
    /// The reply could not be serialised to the client.
    IpcChannelError,
    /// The renderer's event loop has closed; the whole server is about to
    /// end.
    EventLoopClosed,
}

/// What becomes of the process after a task's outcome.
#[derive(Clone, Copy, PartialEq, Eq, Structural, Debug)]
pub enum TaskVerdict {
    /// The task is done; the server keeps serving.
    Proceed,
    /// No safe continuation: a corrupted reply channel means the renderer
    /// link is broken, so the process aborts.
    AbortProcess,
}

/// Decides what a finished task's outcome means for the server.  A failure
/// to serialise a reply is fatal; a closed renderer notifier is benign,
/// since it only signals imminent shutdown; success is success.
pub fn conclude_task(outcome: Result<(), HandlerError>) -> (v: TaskVerdict)
    ensures
        v is AbortProcess <==> outcome matches Err(HandlerError::IpcChannelError),
{
    match outcome {
        Ok(()) => TaskVerdict::Proceed,
        Err(HandlerError::IpcChannelError) => TaskVerdict::AbortProcess,
        Err(HandlerError::EventLoopClosed) => TaskVerdict::Proceed,
    }
}

} // verus!
