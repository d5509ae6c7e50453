//! The lifecycle of a streaming session: `Idle -> Streaming -> Stopping -> Idle`.
use vstd::prelude::*;
use crate::error::StreamError;

verus! {

#[derive(Debug, Clone, Copy, PartialEq, Eq, Structural)]
pub enum StreamState {
    Idle,
    Streaming,
    Stopping,
}

/// What `start` answers in `state` for a ring of `n_buffers` and a consumer
/// that is callable or not.
pub open spec fn start_outcome(state: StreamState, n_buffers: int, callable: bool) -> Result<
    (),
    StreamError,
> {
    if state != StreamState::Idle {
        Err(StreamError::AlreadyStreaming)
    } else if !callable {
        Err(StreamError::NotCallable)
    } else if n_buffers < 2 {
        Err(StreamError::TooFewBuffers)
    } else {
        Ok(())
    }
}

/// Whether a stop request in `state` has workers to signal and join.
pub open spec fn stop_must_join(state: StreamState) -> bool {
    state == StreamState::Streaming
}

/// The state once a stop request in `state` has run its course: the workers,
/// if any, joined.
pub open spec fn state_after_stop(state: StreamState) -> StreamState {
    if stop_must_join(state) {
        StreamState::Idle
    } else {
        state
    }
}

/// Stopping twice is stopping once: the second request finds nothing to join
/// and leaves the state as the first left it.
pub proof fn lemma_stop_is_idempotent(state: StreamState)
    ensures
        !stop_must_join(state_after_stop(state)),
        state_after_stop(state_after_stop(state)) == state_after_stop(state),
{
}

/// The lifecycle controller of one device: at most one session at a time.
pub struct Lifecycle {
    state: StreamState,
}

impl Lifecycle {
    pub closed spec fn state_spec(&self) -> StreamState {
        self.state
    }

    /// A controller with no session.
    pub fn new() -> (l: Lifecycle)
        ensures
            l.state_spec() == StreamState::Idle,
    {
        Lifecycle { state: StreamState::Idle }
    }

    pub fn state(&self) -> (s: StreamState)
        ensures
            s == self.state_spec(),
    {
        self.state
    }

    /// Whether a session is running.
    pub fn is_streaming(&self) -> (b: bool)
        ensures
            b == (self.state_spec() == StreamState::Streaming),
    {
        self.state == StreamState::Streaming
    }

    /// Admits a new session of `n_buffers` buffers whose consumer is
    /// `consumer_callable` or not. Only an idle controller admits one; a
    /// refusal leaves the controller, and any session it runs, as it was.
    pub fn start(&mut self, n_buffers: usize, consumer_callable: bool) -> (r: Result<(), StreamError>)
        ensures
            r == start_outcome(old(self).state_spec(), n_buffers as int, consumer_callable),
            final(self).state_spec() == if r is Ok {
                StreamState::Streaming
            } else {
                old(self).state_spec()
            },
    {
        if self.state != StreamState::Idle {
            Err(StreamError::AlreadyStreaming)
        } else if !consumer_callable {
            Err(StreamError::NotCallable)
        } else if n_buffers < 2 {
            Err(StreamError::TooFewBuffers)
        } else {
            self.state = StreamState::Streaming;
            Ok(())
        }
    }

    /// Asks the running session to stop. Returns whether its workers must now
    /// be signalled and joined (then call [`Lifecycle::finish_stop`]); with no
    /// session running this is a no-op.
    pub fn begin_stop(&mut self) -> (must_join: bool)
        ensures
            must_join == stop_must_join(old(self).state_spec()),
            final(self).state_spec() == if must_join {
                StreamState::Stopping
            } else {
                old(self).state_spec()
            },
    {
        if self.state == StreamState::Streaming {
            self.state = StreamState::Stopping;
            true
        } else {
            false
        }
    }

    /// Records that the workers of the stopping session have been joined,
    /// `workers_ok` when all of them ended normally.
    pub fn finish_stop(&mut self, workers_ok: bool) -> (r: Result<(), StreamError>)
        requires
            old(self).state_spec() == StreamState::Stopping,
        ensures
            final(self).state_spec() == StreamState::Idle,
            r == if workers_ok {
                Ok::<(), StreamError>(())
            } else {
                Err(StreamError::WorkerFailed)
            },
    {
        self.state = StreamState::Idle;
        if workers_ok {
            Ok(())
        } else {
            Err(StreamError::WorkerFailed)
        }
    }
}

} // verus!
