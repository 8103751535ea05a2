//! The mock listener's lifecycle: a handle that owns one port for one
//! collection and walks the state machine
//! `Created -> Bound -> Serving -> ShuttingDown -> Stopped`.
//!
//! The handle models the listener as the registry sees it; the host
//! program performs the actual bind, serves connections, and fires the
//! real cancellation signal, stepping the handle as it goes.

use vstd::prelude::*;
use crate::models::MockServerError;

verus! {

/// Where a listener stands in its life. `Stopped` is terminal.
#[derive(Debug, Clone, Copy, PartialEq, Eq, Structural)]
pub enum ListenerState {
    Created,
    Bound,
    Serving,
    ShuttingDown,
    Stopped,
}

/// The listener state machine: every transition a listener may take.
/// Binding can fail, but that failure destroys the handle rather than
/// moving it; shutdown is always reached through the cancellation signal.
pub open spec fn lifecycle_step(pre: ListenerState, post: ListenerState) -> bool {
    ||| (pre == ListenerState::Created && post == ListenerState::Bound)
    ||| (pre == ListenerState::Bound && post == ListenerState::Serving)
    ||| (pre == ListenerState::Serving && post == ListenerState::ShuttingDown)
    ||| (pre == ListenerState::ShuttingDown && post == ListenerState::Stopped)
}

/// No transition leaves `Stopped`: the lifecycle's terminal state.
pub proof fn lemma_stopped_is_terminal(post: ListenerState)
    ensures
        !lifecycle_step(ListenerState::Stopped, post),
{
}

/// The live listener for one port: the port it exclusively owns, the
/// collection whose routes it serves, and where it stands in its life.
#[derive(Debug)]
pub struct MockServer {
    pub port: u16,
    pub collection_id: String,
    pub state: ListenerState,
}

impl MockServer {
    /// A freshly created listener handle: not yet bound, nothing carried
    /// over from any earlier listener on the same port.
    pub fn new(port: u16, collection_id: String) -> (s: Self)
        ensures
            s.port == port,
            s.collection_id == collection_id,
            s.state == ListenerState::Created,
    {
        Self { port, collection_id, state: ListenerState::Created }
    }

    /// Records the outcome of the host's bind: a bound listener begins
    /// accepting immediately, so success walks the handle straight to
    /// `Serving`; failure is reported as `BindError` and leaves the
    /// handle as it was, to be discarded by the caller.
    pub fn start(&mut self, bind_ok: bool) -> (r: Result<(), MockServerError>)
        requires
            old(self).state == ListenerState::Created,
        ensures
            final(self).port == old(self).port,
            final(self).collection_id == old(self).collection_id,
            bind_ok ==> r is Ok && final(self).state == ListenerState::Serving,
            !bind_ok ==> r == Err::<(), MockServerError>(
                MockServerError::BindError { port: old(self).port },
            ) && final(self).state == old(self).state,
    {
        if !bind_ok {
            return Err(MockServerError::BindError { port: self.port });
        }
        self.mark_bound();
        self.begin_serving();
        Ok(())
    }

    /// The bind succeeded: `Created -> Bound`.
    pub fn mark_bound(&mut self)
        requires
            old(self).state == ListenerState::Created,
        ensures
            final(self).port == old(self).port,
            final(self).collection_id == old(self).collection_id,
            final(self).state == ListenerState::Bound,
            lifecycle_step(old(self).state, final(self).state),
    {
        self.state = ListenerState::Bound;
    }

    /// The accept loop is running: `Bound -> Serving`. No separate
    /// readiness signal exists; callers may send requests at once.
    pub fn begin_serving(&mut self)
        requires
            old(self).state == ListenerState::Bound,
        ensures
            final(self).port == old(self).port,
            final(self).collection_id == old(self).collection_id,
            final(self).state == ListenerState::Serving,
            lifecycle_step(old(self).state, final(self).state),
    {
        self.state = ListenerState::Serving;
    }

    /// Fires the cooperative cancellation signal: a serving listener
    /// moves to `ShuttingDown`; on any other state this is a no-op, so a
    /// second `stop` is harmless.
    pub fn stop(&mut self)
        ensures
            final(self).port == old(self).port,
            final(self).collection_id == old(self).collection_id,
            final(self).state == if old(self).state == ListenerState::Serving {
                ListenerState::ShuttingDown
            } else {
                old(self).state
            },
    {
        if self.state_is_serving() {
            self.state = ListenerState::ShuttingDown;
        }
    }

    /// The drain window has closed and the task has ended:
    /// `ShuttingDown -> Stopped`, the terminal state.
    pub fn mark_stopped(&mut self)
        requires
            old(self).state == ListenerState::ShuttingDown,
        ensures
            final(self).port == old(self).port,
            final(self).collection_id == old(self).collection_id,
            final(self).state == ListenerState::Stopped,
            lifecycle_step(old(self).state, final(self).state),
    {
        self.state = ListenerState::Stopped;
    }

    /// Whether the listener currently accepts requests.
    pub fn state_is_serving(&self) -> (r: bool)
        ensures
            r == (self.state == ListenerState::Serving),
    {
        match self.state {
            ListenerState::Serving => true,
            _ => false,
        }
    }
}

} // verus!
